use foodcell::actuator::{
    ActuatorCh, Output, OutputOrder, RelayHBridge, RelaySwitch, SimpleLinearActuator,
};
use foodcell::bag::{BagError, BagSensor, BagSensorState};
use foodcell::client::{
    read_outcome, spacing, ClientState, MotionClient, ReadOutcome, ServeStep,
};
use foodcell::controller::ErrorKind;
use foodcell::dispense::{
    DispenseTimeout, Dispenser, EndKind, Error, Event, LoopState, MotorOrder, Parameters, Phase,
    Setpoint,
};
use foodcell::ethercat::{Command, IoMsg};
use foodcell::gantry::{gantry, GantryPhase, GantryStep};
use foodcell::io::{AnalogInput, DigitalInput, DigitalOutput, HBridge, HBridgeState};
use foodcell::led::{Color, Lamp, LampSwitch, Led};
use foodcell::motor::ClearCoreMotor;
use foodcell::scale::{key_bits, median, ordered_key};
use foodcell::servo::{servo_step, Hatch, SealStep, Sealer, Sense, ServoMove, ServoStep, TimedMove};

fn window(head: &[u8]) -> Vec<u8> {
    let mut reply = vec![0u8; 100];
    reply[..head.len()].copy_from_slice(head);
    reply
}

fn relay_pair() -> RelayHBridge {
    RelayHBridge::new(
        (Output::ClearCore(DigitalOutput::new(2)), Output::EtherCat(1, 6)),
        AnalogInput::new(3),
    )
}

#[test]
fn relay_bridge_switches() {
    let bridge = relay_pair();
    assert_eq!(
        bridge.actuate(HBridgeState::Pos),
        vec![RelaySwitch { channel: ActuatorCh::Cha, state: true }]
    );
    assert_eq!(
        bridge.actuate(HBridgeState::Neg),
        vec![RelaySwitch { channel: ActuatorCh::Chb, state: true }]
    );
    assert_eq!(
        bridge.actuate(HBridgeState::Off),
        vec![
            RelaySwitch { channel: ActuatorCh::Cha, state: false },
            RelaySwitch { channel: ActuatorCh::Chb, state: false }
        ]
    );
}

#[test]
fn outputs_turn_into_orders() {
    let bridge = relay_pair();
    match bridge.output(ActuatorCh::Cha).set_state(true) {
        OutputOrder::ClearCore(frame) => assert_eq!(frame, b"\x02O232700\r".to_vec()),
        OutputOrder::EtherCat(_) => panic!("a controller output must give a frame"),
    }
    match bridge.output(ActuatorCh::Cha).set_state(false) {
        OutputOrder::ClearCore(frame) => assert_eq!(frame, b"\x02O20\r".to_vec()),
        OutputOrder::EtherCat(_) => panic!("a controller output must give a frame"),
    }
    match bridge.output(ActuatorCh::Chb).set_state(true) {
        OutputOrder::EtherCat(msg) => {
            assert_eq!(msg, IoMsg { slot: 1, idx: 6, cmd: Command::SetState(true) })
        }
        OutputOrder::ClearCore(_) => panic!("a card output must give a request"),
    }
}

#[test]
fn feedback_is_averaged_toward_zero() {
    let single = relay_pair();
    assert_eq!(single.get_feedback(20000, None), 20000);
    let dual = RelayHBridge::with_dual_fb(
        (Output::EtherCat(0, 0), Output::EtherCat(0, 1)),
        (AnalogInput::new(3), AnalogInput::new(4)),
    );
    assert_eq!(dual.get_feedback(10, Some(20)), 15);
    assert_eq!(dual.get_feedback(10, Some(15)), 12);
    assert_eq!(dual.get_feedback(-10, Some(-15)), -12);
    assert_eq!(dual.get_feedback(-3, Some(2)), 0);
    assert_eq!(dual.get_feedback(i64::MAX, Some(i64::MAX)), i64::MAX);
    assert_eq!(dual.get_feedback(i64::MIN, Some(i64::MIN)), i64::MIN);
    assert_eq!(dual.get_feedback(i64::MIN, Some(i64::MAX)), 0);
}

#[test]
fn simple_actuator_frames_and_feedback() {
    let bare = SimpleLinearActuator::new(HBridge::new(4, 32760));
    assert_eq!(bare.actuate(HBridgeState::Pos), b"\x02O432760\r".to_vec());
    assert_eq!(bare.actuate(HBridgeState::Neg), b"\x02O4-32760\r".to_vec());
    assert_eq!(bare.actuate(HBridgeState::Off), b"\x02O40\r".to_vec());
    assert_eq!(bare.feedback_query(), None);
    assert_eq!(bare.get_feedback(&window(b"\x02I35\r")).unwrap(), None);
    assert_eq!(bare.get_feedback(&window(b"\x02I3?")).unwrap(), None);
    let sensed = SimpleLinearActuator::with_feedback(HBridge::new(5, 100), AnalogInput::new(3));
    assert_eq!(sensed.feedback_query(), Some(b"\x02I3\r".to_vec()));
    assert_eq!(sensed.get_feedback(&window(b"\x02I31234\r")).unwrap(), Some(1234));
    assert_eq!(
        sensed.get_feedback(&window(b"\x02I3?")).unwrap_err().kind,
        ErrorKind::ControllerRejected
    );
}

#[test]
fn servo_step_rules() {
    let above = ServoMove { drive: HBridgeState::Pos, sense: Sense::Above, set_point: 100 };
    assert_eq!(servo_step(above, 100, 0, 50), ServoStep::Continue);
    assert_eq!(servo_step(above, 101, 49, 50), ServoStep::Continue);
    assert_eq!(servo_step(above, 99, 0, 50), ServoStep::Reached);
    assert_eq!(servo_step(above, 99, 50, 50), ServoStep::Reached);
    assert_eq!(servo_step(above, 100, 50, 50), ServoStep::TimedOut);
    assert_eq!(servo_step(above, 100, 51, 50), ServoStep::TimedOut);
    let below = ServoMove { drive: HBridgeState::Neg, sense: Sense::Below, set_point: -5 };
    assert_eq!(servo_step(below, -5, 0, 50), ServoStep::Continue);
    assert_eq!(servo_step(below, -6, 0, 50), ServoStep::Continue);
    assert_eq!(servo_step(below, -4, 0, 50), ServoStep::Reached);
    assert_eq!(servo_step(below, -6, 50, 50), ServoStep::TimedOut);
}

#[test]
fn hatch_open_with_timeout() {
    let hatch = Hatch::from_io(
        Output::ClearCore(DigitalOutput::new(2)),
        Output::ClearCore(DigitalOutput::new(3)),
        AnalogInput::new(3),
        500,
    );
    let servo = hatch.open(10000);
    assert_eq!(servo.drive, HBridgeState::Pos);
    let mut issued = vec![hatch.actuator.actuate(servo.drive)];
    let mut elapsed_ms: u64 = 0;
    let mut reached = false;
    loop {
        let feedback = hatch.get_position(20000, None);
        match hatch.step(servo, feedback, elapsed_ms) {
            ServoStep::Continue => elapsed_ms += 5,
            ServoStep::Reached => {
                reached = true;
                break;
            }
            ServoStep::TimedOut => break,
        }
    }
    issued.push(hatch.actuator.actuate(HBridgeState::Off));
    assert!(!reached);
    assert_eq!(elapsed_ms, 500);
    assert_eq!(
        issued.last().unwrap(),
        &vec![
            RelaySwitch { channel: ActuatorCh::Cha, state: false },
            RelaySwitch { channel: ActuatorCh::Chb, state: false }
        ]
    );
}

#[test]
fn hatch_moves() {
    let hatch = Hatch::new(relay_pair(), 3000);
    assert_eq!(
        hatch.open(7),
        ServoMove { drive: HBridgeState::Pos, sense: Sense::Above, set_point: 7 }
    );
    assert_eq!(
        hatch.close(9),
        ServoMove { drive: HBridgeState::Neg, sense: Sense::Below, set_point: 9 }
    );
    assert_eq!(hatch.timed_open(2100), TimedMove { drive: HBridgeState::Pos, hold_ms: 2100 });
    assert_eq!(hatch.timed_close(2100), TimedMove { drive: HBridgeState::Neg, hold_ms: 2100 });
    assert_eq!(hatch.step(hatch.close(9), 10, 0), ServoStep::Reached);
    assert_eq!(hatch.step(hatch.close(9), 9, 2999), ServoStep::Continue);
    assert_eq!(hatch.step(hatch.close(9), 9, 3000), ServoStep::TimedOut);
}

#[test]
fn sealer_cycle() {
    let sealer = Sealer::new(Output::ClearCore(DigitalOutput::new(1)), relay_pair(), 3000, 300, 20);
    assert_eq!(
        sealer.seal(),
        vec![
            SealStep::MoveTo(300),
            SealStep::Heater(true),
            SealStep::Dwell(3000),
            SealStep::Heater(false),
            SealStep::MoveTo(20)
        ]
    );
    assert_eq!(
        sealer.timed_move_seal(700),
        vec![
            SealStep::Timed(TimedMove { drive: HBridgeState::Pos, hold_ms: 700 }),
            SealStep::Heater(true),
            SealStep::Dwell(3000),
            SealStep::Heater(false),
            SealStep::Timed(TimedMove { drive: HBridgeState::Neg, hold_ms: 700 })
        ]
    );
    assert_eq!(
        sealer.absolute_move(20, 300),
        Some(ServoMove { drive: HBridgeState::Pos, sense: Sense::Below, set_point: 300 })
    );
    assert_eq!(
        sealer.absolute_move(300, 20),
        Some(ServoMove { drive: HBridgeState::Neg, sense: Sense::Above, set_point: 20 })
    );
    assert_eq!(sealer.absolute_move(300, 300), None);
    let extend = sealer.absolute_move(20, 300).unwrap();
    assert_eq!(sealer.step(extend, 300, 10), ServoStep::Continue);
    assert_eq!(sealer.step(extend, 301, 10), ServoStep::Reached);
    assert_eq!(sealer.step(extend, 100, 3000), ServoStep::TimedOut);
}

/// A one-pole low-pass filter, as the dispenser's caller keeps it.
struct Filter {
    a: f64,
    b: f64,
    previous: f64,
}

impl Filter {
    fn new(sample_rate: f64, cutoff: f64, initial: f64) -> Self {
        let period = 1.0 / sample_rate;
        let rc = 1.0 / (cutoff * 2.0 * std::f64::consts::PI);
        Filter { a: period / (period + rc), b: rc / (period + rc), previous: initial }
    }

    fn apply(&mut self, value: f64) -> f64 {
        self.previous = self.a * value + self.b * self.previous;
        self.previous
    }
}

struct Run {
    end: EndKind,
    dispensed: f64,
    elapsed_ms: u64,
    orders: Vec<MotorOrder>,
}

/// Runs a weight dispense against a scale whose weight is a function of the
/// time in milliseconds.
fn run_dispense(
    dispenser: &Dispenser,
    grams: f64,
    check_offset: f64,
    stop_offset: f64,
    motor_speed: f64,
    scale: &dyn Fn(u64) -> f64,
) -> Run {
    let init = scale(0);
    let target = init - grams;
    let mut filter = Filter::new(2.0, 2.0, init);
    let (mut state, mut orders) = dispenser.start();
    let mut now_ms: u64 = 0;
    let mut filtered = init;
    let mut confirmed = init;
    loop {
        let event = match state.phase {
            Phase::Head => Event::Clock { shutdown: false, elapsed_ms: now_ms },
            Phase::Sampling => {
                filtered = filter.apply(scale(now_ms));
                let speed = (filtered - target) / grams * motor_speed;
                Event::Sample {
                    elapsed_ms: now_ms,
                    reaches_floor: speed >= 0.1,
                    exceeds_base: speed > motor_speed,
                    below_check: filtered < target + check_offset,
                }
            }
            Phase::Confirming => {
                let mut keys: Vec<i64> = Vec::new();
                for sample in 0..15u64 {
                    keys.push((scale(now_ms + sample * 20) * 1000.0) as i64);
                }
                now_ms += 300;
                confirmed = median(&mut keys) as f64 / 1000.0;
                Event::Median { below_stop: confirmed < target + stop_offset }
            }
            Phase::Ended(end) => {
                let dispensed = match end {
                    EndKind::WeightAchieved => init - confirmed,
                    _ => init - filtered,
                };
                return Run { end, dispensed, elapsed_ms: now_ms, orders };
            }
        };
        let (next, issued) = dispenser.dispense(state, event);
        orders.extend(issued);
        if next.phase == Phase::Head {
            now_ms = (now_ms / 500 + 1) * 500;
        }
        state = next;
    }
}

fn weight_dispenser(timeout_ms: u64, retract_before: bool, retract_after: bool) -> Dispenser {
    Dispenser::new(
        ClearCoreMotor::new(0, 800),
        Setpoint::Weight { timeout_ms },
        Parameters { retract_before, retract_after },
    )
}

fn at(phase: Phase, last_update_ms: u64) -> LoopState {
    LoopState { phase, last_update_ms }
}

#[test]
fn dispense_weight_achieved() {
    let dispenser = weight_dispenser(30_000, false, false);
    let scale = |ms: u64| 1000.0 - 2.0 * (ms / 500) as f64;
    let run = run_dispense(&dispenser, 20.0, 5.0, 3.0, 0.3, &scale);
    assert_eq!(run.end, EndKind::WeightAchieved);
    assert!(run.dispensed >= 17.0 && run.dispensed <= 21.0);
    assert_eq!(run.dispensed, 18.0);
    assert!(run.elapsed_ms >= 4000 && run.elapsed_ms <= 6000);
    assert_eq!(run.orders.last(), Some(&MotorOrder::AbruptStop));
    assert_eq!(&run.orders[..2], &[MotorOrder::SetBaseVelocity, MotorOrder::Advance(100)]);
    assert!(run.orders.contains(&MotorOrder::SetScaledVelocity));
    assert!(run.orders.contains(&MotorOrder::Advance(10)));
}

#[test]
fn dispense_timeout() {
    let dispenser = weight_dispenser(3_000, false, true);
    let scale = |_ms: u64| 1000.0;
    let run = run_dispense(&dispenser, 20.0, 5.0, 3.0, 0.3, &scale);
    assert_eq!(run.end, EndKind::Timeout);
    assert!(run.dispensed.abs() < 1e-9);
    assert_eq!(run.elapsed_ms, 3500);
    assert_eq!(run.orders.last(), Some(&MotorOrder::AbruptStop));
    assert!(!run.orders.contains(&MotorOrder::RetractAfter));
}

#[test]
fn dispense_shutdown_fails_at_once() {
    let dispenser = weight_dispenser(3_000, true, true);
    let (state, orders) = dispenser
        .dispense(at(Phase::Head, 7), Event::Clock { shutdown: true, elapsed_ms: 10_000 });
    assert_eq!(state, at(Phase::Ended(EndKind::Failed), 7));
    assert_eq!(orders, vec![MotorOrder::AbruptStop]);
}

#[test]
fn dispense_head_of_cycle() {
    let dispenser = weight_dispenser(3_000, false, false);
    let head = |elapsed_ms: u64| {
        dispenser.dispense(at(Phase::Head, 0), Event::Clock { shutdown: false, elapsed_ms })
    };
    assert_eq!(head(0), (at(Phase::Sampling, 0), vec![]));
    assert_eq!(head(3_000), (at(Phase::Sampling, 0), vec![]));
    assert_eq!(head(3_001), (at(Phase::Ended(EndKind::Timeout), 0), vec![MotorOrder::AbruptStop]));
}

#[test]
fn dispense_sample_and_confirmation() {
    let dispenser = weight_dispenser(3_000, false, true);
    let sample = |elapsed_ms: u64, reaches_floor: bool, exceeds_base: bool, below: bool| {
        dispenser.dispense(
            at(Phase::Sampling, 1000),
            Event::Sample { elapsed_ms, reaches_floor, exceeds_base, below_check: below },
        )
    };
    assert_eq!(sample(1200, true, false, false), (at(Phase::Head, 1000), vec![]));
    assert_eq!(sample(900, true, false, false), (at(Phase::Head, 1000), vec![]));
    assert_eq!(
        sample(1201, true, false, false),
        (at(Phase::Head, 1201), vec![MotorOrder::SetScaledVelocity, MotorOrder::Advance(20)])
    );
    assert_eq!(
        sample(1500, true, true, false),
        (at(Phase::Head, 1500), vec![MotorOrder::SetBaseVelocity, MotorOrder::Advance(20)])
    );
    assert_eq!(
        sample(1500, false, false, false),
        (at(Phase::Head, 1500), vec![MotorOrder::Advance(20)])
    );
    assert_eq!(
        sample(1100, false, false, true),
        (at(Phase::Confirming, 1000), vec![MotorOrder::AbruptStop])
    );
    assert_eq!(
        sample(1500, false, false, true),
        (at(Phase::Confirming, 1500), vec![MotorOrder::Advance(20), MotorOrder::AbruptStop])
    );
    assert_eq!(
        dispenser.dispense(at(Phase::Confirming, 5), Event::Median { below_stop: false }),
        (at(Phase::Head, 5), vec![MotorOrder::Advance(10)])
    );
    assert_eq!(
        dispenser.dispense(at(Phase::Confirming, 5), Event::Median { below_stop: true }),
        (
            at(Phase::Ended(EndKind::WeightAchieved), 5),
            vec![MotorOrder::AbruptStop, MotorOrder::RetractAfter]
        )
    );
    assert_eq!(
        dispenser
            .dispense(at(Phase::Confirming, 5), Event::Clock { shutdown: true, elapsed_ms: 0 }),
        (at(Phase::Confirming, 5), vec![])
    );
    assert_eq!(
        dispenser.dispense(
            at(Phase::Ended(EndKind::Timeout), 5),
            Event::Clock { shutdown: false, elapsed_ms: 0 }
        ),
        (at(Phase::Ended(EndKind::Timeout), 5), vec![])
    );
}

#[test]
fn dispense_speed_update_alone() {
    let dispenser = weight_dispenser(3_000, false, false);
    assert_eq!(dispenser.update_motor_speed(0, 200, true, false), (0, vec![]));
    assert_eq!(
        dispenser.update_motor_speed(0, 201, true, false),
        (201, vec![MotorOrder::SetScaledVelocity, MotorOrder::Advance(20)])
    );
    assert_eq!(dispenser.update_motor_speed(500, 100, true, true), (500, vec![]));
    assert_eq!(dispenser.finish(EndKind::Failed), vec![MotorOrder::AbruptStop]);
    assert_eq!(dispenser.finish(EndKind::WeightAchieved), vec![MotorOrder::AbruptStop]);
}

#[test]
fn dispense_start_and_timed_orders() {
    let plain = Dispenser::new(
        ClearCoreMotor::new(0, 800),
        Setpoint::Timed(1500),
        Parameters { retract_before: false, retract_after: false },
    );
    assert_eq!(
        plain.start(),
        (at(Phase::Head, 0), vec![MotorOrder::SetBaseVelocity, MotorOrder::Advance(100)])
    );
    assert_eq!(
        plain.timed(1500),
        vec![
            MotorOrder::SetBaseVelocity,
            MotorOrder::Advance(100),
            MotorOrder::Dwell(1500),
            MotorOrder::AbruptStop
        ]
    );
    let retracting = Dispenser::new(
        ClearCoreMotor::new(0, 800),
        Setpoint::Timed(1500),
        Parameters { retract_before: true, retract_after: true },
    );
    assert_eq!(
        retracting.timed(1500),
        vec![
            MotorOrder::SetBaseVelocity,
            MotorOrder::RetractBefore,
            MotorOrder::WaitForMove,
            MotorOrder::Advance(100),
            MotorOrder::Dwell(1500),
            MotorOrder::AbruptStop,
            MotorOrder::RetractAfter
        ]
    );
    assert_eq!(plain.advance(100).unwrap(), b"\x02M0RM80000\r".to_vec());
    assert_eq!(plain.advance(20).unwrap(), b"\x02M0RM16000\r".to_vec());
    assert_eq!(plain.advance(i64::MAX).unwrap_err().kind, ErrorKind::OutOfRange);
}

#[test]
fn dispense_errors_convert() {
    assert!(matches!(Error::from(DispenseTimeout), Error::Timeout));
    let motor = foodcell::controller::Error::motor_faulted();
    match Error::from(motor) {
        Error::Motor(e) => assert_eq!(e.kind, ErrorKind::MotorFaulted),
        Error::Timeout => panic!("a motor error must stay a motor error"),
    }
}

#[test]
fn gantry_go_to() {
    let motor = ClearCoreMotor::new(0, 800);
    let mut sent = vec![motor.absolute_move(73600)];
    let replies: Vec<Vec<u8>> = vec![
        window(b"\x02M0_"),
        window(b"\x02M04"),
        window(b"\x02M04"),
        window(b"\x02M03"),
        window(b"\x02M073600\r"),
    ];
    let mut phase = GantryPhase::Commanded;
    let mut sleeps: usize = 0;
    let mut arrived = None;
    for reply in replies {
        match gantry(phase, &reply).unwrap() {
            GantryStep::Poll => {
                phase = GantryPhase::Settling;
                sent.push(motor.get_status());
            }
            GantryStep::SleepThenPoll => {
                sleeps += 1;
                sent.push(motor.get_status());
            }
            GantryStep::Locate => {
                phase = GantryPhase::Locating;
                sent.push(motor.get_position());
            }
            GantryStep::Arrived(counts) => arrived = Some(counts),
        }
    }
    assert_eq!(arrived, Some(73600));
    assert_eq!(sleeps, 2);
    assert_eq!(sent.len(), 5);
    assert_eq!(sent[0], b"\x02M0AM73600\r".to_vec());
    assert_eq!(sent[4], b"\x02M0GP\r".to_vec());
}

#[test]
fn gantry_errors() {
    assert_eq!(
        gantry(GantryPhase::Commanded, &window(b"\x02M0?")).unwrap_err().kind,
        ErrorKind::ControllerRejected
    );
    assert_eq!(
        gantry(GantryPhase::Settling, &window(b"\x02M07")).unwrap_err().kind,
        ErrorKind::UnknownStatus
    );
    assert_eq!(
        gantry(GantryPhase::Locating, &window(b"\x02M0?")).unwrap_err().kind,
        ErrorKind::ControllerRejected
    );
    assert_eq!(
        gantry(GantryPhase::Settling, &window(b"\x02M02")).unwrap(),
        GantryStep::Locate
    );
}

#[test]
fn bag_sensor_reports() {
    let sensor = BagSensor::new(DigitalInput::new(1));
    assert_eq!(sensor.check(&window(b"\x02I11\r")).unwrap(), BagSensorState::Bagless);
    assert_eq!(sensor.check(&window(b"\x02I10\r")).unwrap(), BagSensorState::Bagful);
    assert!(sensor.check(&window(b"\x02I1?")).is_err());
    assert_eq!(BagSensor::listener(BagSensorState::Bagful), Ok(()));
    assert_eq!(BagSensor::listener(BagSensorState::Bagless), Err(BagError::LostBag));
}

#[test]
fn led_colors() {
    let led = Led::new(DigitalOutput::new(0), DigitalOutput::new(1));
    let dark = |lamp: Lamp| LampSwitch { lamp, state: false };
    let lit = |lamp: Lamp| LampSwitch { lamp, state: true };
    assert_eq!(led.turn_on(Color::Red), [dark(Lamp::Green), lit(Lamp::Red)]);
    assert_eq!(led.turn_on(Color::Green), [dark(Lamp::Red), lit(Lamp::Green)]);
    assert_eq!(led.turn_on(Color::Yellow), [lit(Lamp::Green), lit(Lamp::Red)]);
    assert_eq!(led.all_off(), [dark(Lamp::Red), dark(Lamp::Green)]);
    assert_eq!(led.output(Lamp::Red).id, 0);
    assert_eq!(led.output(Lamp::Green).id, 1);
}

fn key_of(weight: f64) -> i64 {
    ordered_key(weight.to_bits())
}

fn weight_of(key: i64) -> f64 {
    f64::from_bits(key_bits(key))
}

#[test]
fn keys_order_as_weights_do() {
    let weights = [-1.0e300, -1000.5, -1.0, -1.0e-300, -0.0, 0.0, 1.0e-300, 0.5, 1.0, 999.25, 1.0e300];
    for pair in weights.windows(2) {
        assert!(key_of(pair[0]) < key_of(pair[1]));
    }
    for weight in weights {
        assert_eq!(weight_of(key_of(weight)).to_bits(), weight.to_bits());
    }
    assert_eq!(ordered_key(0), 0);
    assert_eq!(ordered_key(5), 5);
    assert_eq!(ordered_key(1u64 << 63), -1);
    assert_eq!(ordered_key(u64::MAX), i64::MIN);
    assert_eq!(ordered_key((1u64 << 63) - 1), i64::MAX);
    assert_eq!(key_bits(-1), 1u64 << 63);
    assert_eq!(key_bits(i64::MIN), u64::MAX);
    assert_eq!(key_bits(i64::MAX), (1u64 << 63) - 1);
}

#[test]
fn scale_median_of_odd_window() {
    let weights = [1000.5, -3.0, 999.25, 1001.0, 0.0, 998.0, 1000.0];
    let mut keys: Vec<i64> = weights.iter().map(|w| key_of(*w)).collect();
    let middle = weight_of(median(&mut keys));
    let mut sorted = weights.to_vec();
    sorted.sort_by(|a, b| a.partial_cmp(b).unwrap());
    assert_eq!(middle, sorted[3]);
    assert_eq!(middle, 999.25);
    let back: Vec<f64> = keys.iter().map(|k| weight_of(*k)).collect();
    assert_eq!(back, sorted);
}

#[test]
fn scale_median_of_even_window_is_upper_middle() {
    let mut keys: Vec<i64> = vec![4, 1, 3, 2];
    assert_eq!(median(&mut keys), 3);
    assert_eq!(keys, vec![1, 2, 3, 4]);
    let mut single: Vec<i64> = vec![7];
    assert_eq!(median(&mut single), 7);
    let mut pair: Vec<i64> = vec![9, -9];
    assert_eq!(median(&mut pair), 9);
    let mut ties: Vec<i64> = vec![5, 5, 1, 5, 1];
    assert_eq!(median(&mut ties), 5);
    assert_eq!(ties, vec![1, 1, 5, 5, 5]);
}

#[test]
fn scale_median_queries_do_not_disturb_each_other() {
    let window: Vec<i64> = vec![30, 10, 20, 50, 40];
    let mut first = window.clone();
    let mut second = window.clone();
    assert_eq!(median(&mut first), 30);
    assert_eq!(median(&mut second), 30);
    assert_eq!(window, vec![30, 10, 20, 50, 40]);
}

#[test]
fn client_serves_one_request_at_a_time() {
    let mut client = MotionClient::new();
    assert_eq!(client.state, ClientState::Connecting);
    assert!(!client.ready());
    client.connected(true);
    assert!(client.ready());
    let mut buffer = [0u8; 100];
    buffer[..4].copy_from_slice(&[0x02, b'M', b'0', b'_']);
    client.begin(b"\x02M0EN\r");
    assert!(!client.ready());
    match client.complete(ReadOutcome::Data, &buffer) {
        ServeStep::Deliver(reply) => {
            assert_eq!(reply.len(), 100);
            assert_eq!(&reply[..4], &[0x02, b'M', b'0', b'_']);
            assert_eq!(&reply[4..], &[0u8; 96][..]);
        }
        _ => panic!("bytes that arrived must be delivered"),
    }
    assert!(client.ready());
    client.begin(b"\x02M0GS\r");
    assert!(matches!(client.complete(ReadOutcome::Closed, &buffer), ServeStep::Skip));
    assert!(client.ready());
    client.begin(b"\x02M0GS\r");
    assert!(matches!(client.complete(ReadOutcome::Failed, &buffer), ServeStep::Terminate));
    assert_eq!(client.state, ClientState::Closed);
    assert!(!client.ready());
}

#[test]
fn client_that_cannot_connect_is_closed() {
    let mut client = MotionClient::new();
    client.connected(false);
    assert_eq!(client.state, ClientState::Closed);
    assert!(!client.ready());
    let mut other = MotionClient::new();
    other.connected(true);
    other.begin(b"\x02I0\r");
    other.close();
    assert_eq!(other.state, ClientState::Closed);
    assert!(!other.awaiting);
}

#[test]
fn client_spaces_requests() {
    assert_eq!(spacing(0), 5);
    assert_eq!(spacing(3), 2);
    assert_eq!(spacing(4), 1);
    assert_eq!(spacing(5), 0);
    assert_eq!(spacing(u64::MAX), 0);
}

#[test]
fn client_classifies_reads() {
    assert_eq!(read_outcome(None), ReadOutcome::Failed);
    assert_eq!(read_outcome(Some(0)), ReadOutcome::Closed);
    assert_eq!(read_outcome(Some(1)), ReadOutcome::Data);
    assert_eq!(read_outcome(Some(100)), ReadOutcome::Data);
}
