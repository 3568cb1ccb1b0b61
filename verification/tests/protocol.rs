use foodcell::controller::{check_reply, received, Error, ErrorKind, MotorBuilder};
use foodcell::frame::build_frame;
use foodcell::handle::ControllerHandle;
use foodcell::io::{AnalogInput, DigitalInput, DigitalOutput, HBridge, HBridgeState};
use foodcell::motor::{status_reply, ClearCoreMotor, EnablePhase, MotorOp, Progress, Status};

fn window(head: &[u8]) -> Vec<u8> {
    let mut reply = vec![0u8; 100];
    reply[..head.len()].copy_from_slice(head);
    reply
}

#[test]
fn frame_opens_with_stx_and_closes_with_cr() {
    let frame = build_frame(b'M', 4, b"AM-12");
    assert_eq!(frame, vec![0x02, b'M', b'4', b'A', b'M', b'-', b'1', b'2', 0x0D]);
    let empty = build_frame(b'I', 0, b"");
    assert_eq!(empty, vec![0x02, b'I', b'0', 0x0D]);
}

#[test]
fn check_reply_accepts_success() {
    assert!(check_reply(&[0x02, b'M', b'0', b'_']).is_ok());
    assert!(check_reply(&window(&[0x02, b'M', b'0', b'_'])).is_ok());
    assert!(check_reply(&[0x02, b'I', b'0', b'1', 0x0D]).is_ok());
}

#[test]
fn check_reply_rejects_question_mark() {
    let reply = [0x02, b'M', b'0', b'?'];
    let e: Error = check_reply(&reply).unwrap_err();
    assert_eq!(e.kind, ErrorKind::ControllerRejected);
    assert_eq!(e.message, "\u{2}M0?");
}

#[test]
fn rejection_message_is_the_whole_window() {
    let reply = window(&[0x02, b'O', b'3', b'?', 0x0D]);
    let e = check_reply(&reply).unwrap_err();
    assert_eq!(e.message.len(), 100);
    assert!(e.message.starts_with("\u{2}O3?\r"));
    assert_eq!(e.message.as_bytes(), reply.as_slice());
}

#[test]
fn fixed_error_messages() {
    assert_eq!(Error::motor_faulted().message, "motor faulted");
    assert_eq!(Error::motor_faulted().kind, ErrorKind::MotorFaulted);
    assert_eq!(Error::unknown_status().message, "unknown status");
    assert_eq!(Error::unknown_status().kind, ErrorKind::UnknownStatus);
    assert_eq!(Error::out_of_range().kind, ErrorKind::OutOfRange);
    assert_eq!(Error::out_of_range().message, "value out of range");
    assert_eq!(Error::disconnected().kind, ErrorKind::Disconnected);
    assert_eq!(Error::disconnected().message, "disconnected");
}

#[test]
fn undelivered_reply_is_a_disconnect() {
    assert_eq!(received(None).unwrap_err().kind, ErrorKind::Disconnected);
    assert_eq!(received(Some(vec![])).unwrap_err().kind, ErrorKind::Disconnected);
    assert_eq!(received(Some(vec![2, b'M', b'0'])).unwrap_err().kind, ErrorKind::Disconnected);
    assert_eq!(received(Some(vec![2, b'M', b'0', b'_'])).unwrap(), vec![2, b'M', b'0', b'_']);
    assert_eq!(received(Some(window(b"\x02M0_"))).unwrap(), window(b"\x02M0_"));
}

#[test]
fn digital_input_frame_and_state() {
    let input = DigitalInput::new(2);
    assert_eq!(input.command(), vec![0x02, b'I', b'2', 0x0D]);
    assert_eq!(input.get_state(&window(&[0x02, b'I', b'2', b'1', 0x0D])).unwrap(), true);
    assert_eq!(input.get_state(&window(&[0x02, b'I', b'2', b'0', 0x0D])).unwrap(), false);
    assert_eq!(input.get_state(&window(&[0x02, b'I', b'2', b'1', b'1', 0x0D])).unwrap(), false);
    assert_eq!(input.get_state(&window(&[0x02, b'I', b'2', b'-', b'1', 0x0D])).unwrap(), false);
    let e = input.get_state(&window(&[0x02, b'I', b'2', b'?'])).unwrap_err();
    assert_eq!(e.kind, ErrorKind::ControllerRejected);
}

#[test]
fn analog_input_frame_and_value() {
    let input = AnalogInput::new(3);
    assert_eq!(input.command(), vec![0x02, b'I', b'3', 0x0D]);
    assert_eq!(input.get_state(&window(b"\x02I320000\r")).unwrap(), 20000);
    assert_eq!(input.get_state(&window(b"\x02I3-17\r")).unwrap(), -17);
    assert_eq!(input.get_state(&window(b"\x02I3\r")).unwrap(), 0);
    assert!(input.get_state(&window(b"\x02I3?")).is_err());
}

#[test]
fn digital_output_frames() {
    let output = DigitalOutput::new(1);
    assert_eq!(
        output.command_builder(true),
        vec![0x02, b'O', b'1', b'3', b'2', b'7', b'0', b'0', 0x0D]
    );
    assert_eq!(output.command_builder(false), vec![0x02, b'O', b'1', b'0', 0x0D]);
    assert!(output.set_state(&window(b"\x02O1_")).is_ok());
    assert_eq!(
        output.set_state(&window(b"\x02O1?")).unwrap_err().kind,
        ErrorKind::ControllerRejected
    );
}

#[test]
fn h_bridge_frames() {
    let bridge = HBridge::new(4, 32760);
    assert_eq!(bridge.command_builder(HBridgeState::Pos), b"\x02O432760\r".to_vec());
    assert_eq!(bridge.command_builder(HBridgeState::Neg), b"\x02O4-32760\r".to_vec());
    assert_eq!(bridge.command_builder(HBridgeState::Off), b"\x02O40\r".to_vec());
    let weak = HBridge::new(5, 100);
    assert_eq!(weak.command_builder(HBridgeState::Neg), b"\x02O5-100\r".to_vec());
    assert!(weak.set_state(&window(b"\x02O5_")).is_ok());
    assert!(weak.set_state(&window(b"\x02O5?")).is_err());
}

#[test]
fn motor_plain_frames() {
    let motor = ClearCoreMotor::new(0, 800);
    assert_eq!(motor.enable(), vec![0x02, b'M', b'0', b'E', b'N', 0x0D]);
    assert_eq!(motor.disable(), b"\x02M0DE\r".to_vec());
    assert_eq!(motor.abrupt_stop(), b"\x02M0AS\r".to_vec());
    assert_eq!(motor.stop(), b"\x02M0ST\r".to_vec());
    assert_eq!(motor.get_status(), b"\x02M0GS\r".to_vec());
    assert_eq!(motor.get_position(), b"\x02M0GP\r".to_vec());
    assert_eq!(motor.clear_alerts(), b"\x02M0CA\r".to_vec());
    assert_eq!(motor.plain_command(MotorOp::Enable), motor.enable());
}

#[test]
fn motor_counted_frames() {
    let motor = ClearCoreMotor::new(3, 800);
    assert_eq!(motor.absolute_move(80000), b"\x02M3AM80000\r".to_vec());
    assert_eq!(motor.relative_move(-18000), b"\x02M3RM-18000\r".to_vec());
    assert_eq!(motor.jog(240), b"\x02M3JG240\r".to_vec());
    assert_eq!(motor.set_acceleration(32000), b"\x02M3SA32000\r".to_vec());
    assert_eq!(motor.set_deceleration(0), b"\x02M3SD0\r".to_vec());
    assert_eq!(motor.counted_command(MotorOp::Jog, -1), b"\x02M3JG-1\r".to_vec());
}

#[test]
fn motor_scaling_of_whole_positions() {
    let motor = ClearCoreMotor::new(1, 800);
    assert_eq!(motor.set_position(3).unwrap(), b"\x02M1SP2400\r".to_vec());
    assert_eq!(motor.set_position(-3).unwrap(), b"\x02M1SP-2400\r".to_vec());
    assert_eq!(motor.set_position(0).unwrap(), b"\x02M1SP0\r".to_vec());
    assert_eq!(motor.to_counts(100).unwrap(), 80000);
    assert_eq!(motor.to_counts(-1).unwrap(), -800);
}

#[test]
fn motor_scaling_rejects_what_does_not_fit() {
    let motor = ClearCoreMotor::new(1, 800);
    assert_eq!(motor.to_counts(i64::MAX).unwrap_err().kind, ErrorKind::OutOfRange);
    assert_eq!(motor.set_position(i64::MIN).unwrap_err().kind, ErrorKind::OutOfRange);
    assert_eq!(motor.to_counts(i64::MAX / 800).unwrap(), (i64::MAX / 800) * 800);
    assert!(motor.to_counts(i64::MAX / 800 + 1).is_err());
    let unit = ClearCoreMotor::new(1, 1);
    assert_eq!(unit.to_counts(i64::MIN).unwrap(), i64::MIN);
    assert_eq!(unit.to_counts(i64::MAX).unwrap(), i64::MAX);
}

#[test]
fn set_velocity_clamps_negative_to_zero() {
    let motor = ClearCoreMotor::new(0, 800);
    assert_eq!(motor.set_velocity(-240), b"\x02M0SV0\r".to_vec());
    assert_eq!(motor.set_velocity(0), b"\x02M0SV0\r".to_vec());
    assert_eq!(motor.set_velocity(240), b"\x02M0SV240\r".to_vec());
}

#[test]
fn status_digits() {
    assert_eq!(status_reply(&window(b"\x02M00")).unwrap(), Status::Disabled);
    assert_eq!(status_reply(&window(b"\x02M01")).unwrap(), Status::Enabling);
    assert_eq!(status_reply(&window(b"\x02M02")).unwrap(), Status::Faulted);
    assert_eq!(status_reply(&window(b"\x02M03")).unwrap(), Status::Ready);
    assert_eq!(status_reply(&window(b"\x02M04")).unwrap(), Status::Moving);
    assert_eq!(status_reply(&window(b"\x02M05")).unwrap_err().kind, ErrorKind::UnknownStatus);
    assert_eq!(status_reply(&window(b"\x02M0_")).unwrap_err().kind, ErrorKind::UnknownStatus);
    assert_eq!(status_reply(&window(b"\x02M0\0")).unwrap_err().kind, ErrorKind::UnknownStatus);
    assert_eq!(
        status_reply(&window(b"\x02M0?")).unwrap_err().kind,
        ErrorKind::ControllerRejected
    );
}

#[test]
fn position_reply_in_counts() {
    let motor = ClearCoreMotor::new(0, 800);
    assert_eq!(motor.position_reply(&window(b"\x02M0-3400\r")).unwrap(), -3400);
    assert_eq!(motor.position_reply(&window(b"\x02M073600\r")).unwrap(), 73600);
    assert!(motor.position_reply(&window(b"\x02M0?")).is_err());
}

/// A controller that answers from a script and records what it was sent.
struct Script {
    replies: Vec<Vec<u8>>,
    sent: Vec<Vec<u8>>,
}

impl Script {
    fn new(replies: Vec<Vec<u8>>) -> Self {
        Script { replies, sent: Vec::new() }
    }

    fn send(&mut self, frame: Vec<u8>) -> Vec<u8> {
        self.sent.push(frame);
        self.replies.remove(0)
    }
}

fn run_enable(motor: &ClearCoreMotor, script: &mut Script) -> (Result<(), Error>, usize, usize) {
    let mut polls: usize = 0;
    let mut ticks: usize = 0;
    let mut phase = EnablePhase::Commanded;
    let mut reply = script.send(motor.enable());
    loop {
        match motor.enable_step(phase, &reply) {
            Err(e) => return (Err(e), polls, ticks),
            Ok(Progress::Done) => return (Ok(()), polls, ticks),
            Ok(Progress::Poll) => {}
            Ok(Progress::TickThenPoll) => ticks += 1,
        }
        phase = EnablePhase::Polling;
        polls += 1;
        reply = script.send(motor.get_status());
    }
}

#[test]
fn motor_enable_happy_path() {
    let motor = ClearCoreMotor::new(0, 800);
    let mut script = Script::new(vec![
        vec![0x02, b'M', b'0', b'_'],
        vec![0x02, b'M', b'0', b'1'],
        vec![0x02, b'M', b'0', b'1'],
        vec![0x02, b'M', b'0', b'3'],
    ]);
    let (result, polls, ticks) = run_enable(&motor, &mut script);
    assert!(result.is_ok());
    assert_eq!(polls, 3);
    assert_eq!(ticks, 2);
    assert_eq!(script.sent[0], vec![0x02, b'M', b'0', b'E', b'N', 0x0D]);
    assert_eq!(script.sent[1], vec![0x02, b'M', b'0', b'G', b'S', 0x0D]);
    assert_eq!(script.sent.len(), 4);
    assert!(script.replies.is_empty());
}

#[test]
fn motor_enable_fault() {
    let motor = ClearCoreMotor::new(0, 800);
    let mut script =
        Script::new(vec![vec![0x02, b'M', b'0', b'_'], vec![0x02, b'M', b'0', b'2']]);
    let (result, polls, _) = run_enable(&motor, &mut script);
    let e = result.unwrap_err();
    assert_eq!(e.kind, ErrorKind::MotorFaulted);
    assert_eq!(e.message, "motor faulted");
    assert_eq!(polls, 1);
}

#[test]
fn motor_enable_refused() {
    let motor = ClearCoreMotor::new(0, 800);
    let mut script = Script::new(vec![vec![0x02, b'M', b'0', b'?']]);
    let (result, polls, _) = run_enable(&motor, &mut script);
    assert_eq!(result.unwrap_err().kind, ErrorKind::ControllerRejected);
    assert_eq!(polls, 0);
}

#[test]
fn motor_enable_unknown_status() {
    let motor = ClearCoreMotor::new(0, 800);
    let mut script =
        Script::new(vec![vec![0x02, b'M', b'0', b'_'], vec![0x02, b'M', b'0', b'9']]);
    let (result, _, _) = run_enable(&motor, &mut script);
    assert_eq!(result.unwrap_err().kind, ErrorKind::UnknownStatus);
}

#[test]
fn controller_rejection() {
    let motor = ClearCoreMotor::new(0, 800);
    let mut script = Script::new(vec![vec![0x02, b'M', b'0', b'?']]);
    let reply = script.send(motor.absolute_move(1600));
    assert_eq!(script.sent[0], b"\x02M0AM1600\r".to_vec());
    let e = check_reply(&reply).unwrap_err();
    assert_eq!(e.kind, ErrorKind::ControllerRejected);
    assert_eq!(e.message, "\u{2}M0?");
}

#[test]
fn wait_for_move_polls_while_moving() {
    let motor = ClearCoreMotor::new(2, 200);
    assert_eq!(motor.wait_for_move(&window(b"\x02M24")).unwrap(), Progress::TickThenPoll);
    assert_eq!(motor.wait_for_move(&window(b"\x02M23")).unwrap(), Progress::Done);
    assert_eq!(motor.wait_for_move(&window(b"\x02M20")).unwrap(), Progress::Done);
    assert_eq!(motor.wait_for_move(&window(b"\x02M22")).unwrap(), Progress::Done);
    assert_eq!(motor.wait_for_move(&window(b"\x02M21")).unwrap(), Progress::Done);
    assert_eq!(
        motor.wait_for_move(&window(b"\x02M2x")).unwrap_err().kind,
        ErrorKind::UnknownStatus
    );
}

#[test]
fn controller_handle_lists_every_sub_device() {
    let handle = ControllerHandle::new([
        MotorBuilder { id: 0, scale: 800 },
        MotorBuilder { id: 1, scale: 800 },
        MotorBuilder { id: 2, scale: 200 },
        MotorBuilder { id: 3, scale: 1 },
    ]);
    assert_eq!(handle.get_motors().len(), 4);
    assert_eq!(handle.get_motor(2).id, 2);
    assert_eq!(handle.get_motor(2).scale, 200);
    assert_eq!(handle.get_digital_inputs().len(), 3);
    assert_eq!(handle.get_digital_input(1).id, 1);
    assert_eq!(handle.get_analog_inputs().len(), 4);
    assert_eq!(handle.get_analog_input(0).id, 3);
    assert_eq!(handle.get_analog_input(3).id, 6);
    assert_eq!(handle.get_outputs().len(), 6);
    assert_eq!(handle.get_output(5).id, 5);
    assert_eq!(handle.get_h_bridge(4).id, 4);
    assert_eq!(handle.get_h_bridge(5).id, 5);
    assert_eq!(handle.get_h_bridge(5).power, 32700);
    assert_eq!(handle.get_h_bridges().len(), 2);
    assert_eq!(
        handle.get_h_bridge(4).command_builder(HBridgeState::Pos),
        b"\x02O432700\r".to_vec()
    );
}
