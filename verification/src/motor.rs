//! Stepper-motor axes of a motion controller: command frames, replies and
//! the polling rules of `enable` and `wait_for_move`.

use vstd::prelude::*;
use crate::codec::{encode_signed, num_to_bytes};
use crate::controller::{
    agrees,
    check_reply,
    describes,
    is_rejected,
    Error,
    ErrorKind,
    FAILED_REPLY,
    RESULT_IDX,
};
use crate::frame::{build_frame, frame_of, TYPE_MOTOR};
use crate::io::{reply_number, reply_value};

verus! {

/// Period, in milliseconds, of the status polls of `enable`.
pub const ENABLE_POLL_MS: u64 = 250;

/// State of a motor as the controller reports it.
#[derive(Clone, Copy, Debug, PartialEq, Eq, PartialOrd, Structural)]
pub enum Status {
    Disabled,
    Enabling,
    Faulted,
    Ready,
    Moving,
}

/// The status that a digit of a status reply names, if any.
pub open spec fn status_of_byte(b: u8) -> Option<Status> {
    if b == 48 {
        Some(Status::Disabled)
    } else if b == 49 {
        Some(Status::Enabling)
    } else if b == 50 {
        Some(Status::Faulted)
    } else if b == 51 {
        Some(Status::Ready)
    } else if b == 52 {
        Some(Status::Moving)
    } else {
        None
    }
}

/// What a status reply means: a refusal, a status, or an unknown digit.
pub open spec fn status_of_reply(reply: Seq<u8>) -> Result<Status, ErrorKind>
    recommends
        reply.len() > 3,
{
    if is_rejected(reply) {
        Err(ErrorKind::ControllerRejected)
    } else {
        match status_of_byte(reply[3]) {
            Some(status) => Ok(status),
            None => Err(ErrorKind::UnknownStatus),
        }
    }
}

/// Reads the status out of the reply to a status query.
pub fn status_reply(reply: &[u8]) -> (result: Result<Status, Error>)
    requires
        reply@.len() > RESULT_IDX,
    ensures
        agrees(result, status_of_reply(reply@)),
        match result {
            Ok(_) => true,
            Err(e) => describes(e, reply@),
        },
{
    let b = reply[RESULT_IDX];
    if b == FAILED_REPLY {
        Err(Error::rejected(reply))
    } else if b == 48 {
        Ok(Status::Disabled)
    } else if b == 49 {
        Ok(Status::Enabling)
    } else if b == 50 {
        Ok(Status::Faulted)
    } else if b == 51 {
        Ok(Status::Ready)
    } else if b == 52 {
        Ok(Status::Moving)
    } else {
        Err(Error::unknown_status())
    }
}

/// The operations of a motor axis.
#[derive(Clone, Copy, Debug, PartialEq, Eq, Structural)]
pub enum MotorOp {
    Enable,
    Disable,
    AbsoluteMove,
    RelativeMove,
    Jog,
    AbruptStop,
    Stop,
    SetPosition,
    SetVelocity,
    SetAcceleration,
    SetDeceleration,
    GetStatus,
    GetPosition,
    ClearAlerts,
}

/// The two letters that name an operation on the wire.
pub open spec fn opcode_of(op: MotorOp) -> Seq<u8> {
    match op {
        MotorOp::Enable => seq![69u8, 78u8],
        MotorOp::Disable => seq![68u8, 69u8],
        MotorOp::AbsoluteMove => seq![65u8, 77u8],
        MotorOp::RelativeMove => seq![82u8, 77u8],
        MotorOp::Jog => seq![74u8, 71u8],
        MotorOp::AbruptStop => seq![65u8, 83u8],
        MotorOp::Stop => seq![83u8, 84u8],
        MotorOp::SetPosition => seq![83u8, 80u8],
        MotorOp::SetVelocity => seq![83u8, 86u8],
        MotorOp::SetAcceleration => seq![83u8, 65u8],
        MotorOp::SetDeceleration => seq![83u8, 68u8],
        MotorOp::GetStatus => seq![71u8, 83u8],
        MotorOp::GetPosition => seq![71u8, 80u8],
        MotorOp::ClearAlerts => seq![67u8, 65u8],
    }
}

/// The frame of operation `op` on motor `id`, with `payload` as its
/// argument text.
pub open spec fn motor_frame(id: u8, op: MotorOp, payload: Seq<u8>) -> Seq<u8> {
    frame_of(TYPE_MOTOR, id, opcode_of(op) + payload)
}

/// The two letters of `op`.
fn opcode(op: MotorOp) -> (letters: [u8; 2])
    ensures
        letters@ == opcode_of(op),
{
    let letters: [u8; 2] = match op {
        MotorOp::Enable => [69, 78],
        MotorOp::Disable => [68, 69],
        MotorOp::AbsoluteMove => [65, 77],
        MotorOp::RelativeMove => [82, 77],
        MotorOp::Jog => [74, 71],
        MotorOp::AbruptStop => [65, 83],
        MotorOp::Stop => [83, 84],
        MotorOp::SetPosition => [83, 80],
        MotorOp::SetVelocity => [83, 86],
        MotorOp::SetAcceleration => [83, 65],
        MotorOp::SetDeceleration => [83, 68],
        MotorOp::GetStatus => [71, 83],
        MotorOp::GetPosition => [71, 80],
        MotorOp::ClearAlerts => [67, 65],
    };
    assert(letters@ =~= opcode_of(op));
    letters
}

/// What follows one reply while a motor is polled.
#[derive(Clone, Copy, Debug, PartialEq, Eq, Structural)]
pub enum Progress {
    /// Query the status at once.
    Poll,
    /// Wait for the next tick of the poll period, then query the status.
    TickThenPoll,
    /// The operation is complete.
    Done,
}

/// Where an enable stands: its command is on the wire, or status polls are.
#[derive(Clone, Copy, Debug, PartialEq, Eq, Structural)]
pub enum EnablePhase {
    Commanded,
    Polling,
}

/// What a reply means to an enable in `phase`. The reply to the command
/// must not be a refusal and leads to the first poll; a poll repeats while
/// the motor is enabling and ends the enable otherwise, with a fault if the
/// motor is faulted.
pub open spec fn enable_outcome(phase: EnablePhase, reply: Seq<u8>) -> Result<Progress, ErrorKind>
    recommends
        reply.len() > 3,
{
    match phase {
        EnablePhase::Commanded => if is_rejected(reply) {
            Err(ErrorKind::ControllerRejected)
        } else {
            Ok(Progress::Poll)
        },
        EnablePhase::Polling => match status_of_reply(reply) {
            Err(kind) => Err(kind),
            Ok(Status::Enabling) => Ok(Progress::TickThenPoll),
            Ok(Status::Faulted) => Err(ErrorKind::MotorFaulted),
            Ok(_) => Ok(Progress::Done),
        },
    }
}

/// What a status reply means to a wait for the end of a move: poll again
/// while the motor is moving.
pub open spec fn wait_outcome(reply: Seq<u8>) -> Result<Progress, ErrorKind>
    recommends
        reply.len() > 3,
{
    match status_of_reply(reply) {
        Err(kind) => Err(kind),
        Ok(Status::Moving) => Ok(Progress::TickThenPoll),
        Ok(_) => Ok(Progress::Done),
    }
}

/// The product of a value and a scale, as it goes on the wire.
pub open spec fn scaled(value: int, scale: int) -> int {
    value * scale
}

/// A motor axis: its id on the controller and the number of wire units per
/// user unit.
#[derive(Clone, Copy, Debug)]
pub struct ClearCoreMotor {
    pub id: u8,
    pub scale: usize,
}

impl ClearCoreMotor {
    /// Whether the id is a single digit and the scale positive.
    pub open spec fn wf(&self) -> bool {
        self.id <= 9 && self.scale > 0
    }

    /// The motor `id` with `scale` wire units per user unit.
    pub fn new(id: u8, scale: usize) -> (motor: Self)
        requires
            id <= 9,
            scale > 0,
        ensures
            motor.id == id,
            motor.scale == scale,
            motor.wf(),
    {
        ClearCoreMotor { id, scale }
    }

    /// The frame of an operation that takes no argument.
    pub fn plain_command(&self, op: MotorOp) -> (frame: Vec<u8>)
        requires
            self.wf(),
        ensures
            frame@ == motor_frame(self.id, op, Seq::empty()),
    {
        let letters = opcode(op);
        let frame = build_frame(TYPE_MOTOR, self.id, letters.as_slice());
        assert(opcode_of(op) + Seq::<u8>::empty() =~= opcode_of(op));
        frame
    }

    /// The frame of an operation whose argument is `counts` wire units.
    pub fn counted_command(&self, op: MotorOp, counts: i64) -> (frame: Vec<u8>)
        requires
            self.wf(),
        ensures
            frame@ == motor_frame(self.id, op, encode_signed(counts as int)),
    {
        let letters = opcode(op);
        let digits = num_to_bytes(counts);
        let mut body: Vec<u8> = Vec::new();
        body.push(letters[0]);
        body.push(letters[1]);
        let mut i: usize = 0;
        while i < digits.len()
            invariant
                i <= digits.len(),
                body@ == opcode_of(op) + digits@.take(i as int),
            decreases digits.len() - i,
        {
            body.push(digits[i]);
            assert(digits@.take(i + 1) =~= digits@.take(i as int).push(digits@[i as int]));
            i = i + 1;
        }
        assert(digits@.take(i as int) =~= digits@);
        build_frame(TYPE_MOTOR, self.id, body.as_slice())
    }

    /// `value` user units in wire units, or an error if the product leaves
    /// the range of the wire integer.
    pub fn to_counts(&self, value: i64) -> (result: Result<i64, Error>)
        requires
            self.wf(),
        ensures
            result is Ok <==> i64::MIN <= scaled(value as int, self.scale as int) <= i64::MAX,
            match result {
                Ok(counts) => counts == scaled(value as int, self.scale as int),
                Err(e) => e.kind == ErrorKind::OutOfRange && describes(e, Seq::empty()),
            },
    {
        let wide_value: i128 = value as i128;
        let wide_scale: i128 = self.scale as i128;
        assert(-0x8000_0000_0000_0000_0000_0000_0000_0000 < wide_value * wide_scale
            < 0x8000_0000_0000_0000_0000_0000_0000_0000) by (nonlinear_arith)
            requires
                -0x8000_0000_0000_0000 <= wide_value < 0x8000_0000_0000_0000,
                0 <= wide_scale < 0x1_0000_0000_0000_0000,
        ;
        let product: i128 = wide_value * wide_scale;
        if product < i64::MIN as i128 || product > i64::MAX as i128 {
            Err(Error::out_of_range())
        } else {
            Ok(product as i64)
        }
    }

    /// The frame that enables the motor.
    pub fn enable(&self) -> (frame: Vec<u8>)
        requires
            self.wf(),
        ensures
            frame@ == motor_frame(self.id, MotorOp::Enable, Seq::empty()),
    {
        self.plain_command(MotorOp::Enable)
    }

    /// What to do after a reply while the motor is being enabled.
    pub fn enable_step(&self, phase: EnablePhase, reply: &[u8]) -> (result: Result<Progress, Error>)
        requires
            reply@.len() > RESULT_IDX,
        ensures
            agrees(result, enable_outcome(phase, reply@)),
            match result {
                Ok(_) => true,
                Err(e) => describes(e, reply@),
            },
    {
        match phase {
            EnablePhase::Commanded => match check_reply(reply) {
                Err(e) => Err(e),
                Ok(_) => Ok(Progress::Poll),
            },
            EnablePhase::Polling => match status_reply(reply) {
                Err(e) => Err(e),
                Ok(Status::Enabling) => Ok(Progress::TickThenPoll),
                Ok(Status::Faulted) => Err(Error::motor_faulted()),
                Ok(_) => Ok(Progress::Done),
            },
        }
    }

    /// The frame that disables the motor.
    pub fn disable(&self) -> (frame: Vec<u8>)
        requires
            self.wf(),
        ensures
            frame@ == motor_frame(self.id, MotorOp::Disable, Seq::empty()),
    {
        self.plain_command(MotorOp::Disable)
    }

    /// The frame of a move to the absolute position `counts`.
    pub fn absolute_move(&self, counts: i64) -> (frame: Vec<u8>)
        requires
            self.wf(),
        ensures
            frame@ == motor_frame(self.id, MotorOp::AbsoluteMove, encode_signed(counts as int)),
    {
        self.counted_command(MotorOp::AbsoluteMove, counts)
    }

    /// The frame of a move by `counts` from the current position.
    pub fn relative_move(&self, counts: i64) -> (frame: Vec<u8>)
        requires
            self.wf(),
        ensures
            frame@ == motor_frame(self.id, MotorOp::RelativeMove, encode_signed(counts as int)),
    {
        self.counted_command(MotorOp::RelativeMove, counts)
    }

    /// The frame that jogs the motor at `counts` per second.
    pub fn jog(&self, counts: i64) -> (frame: Vec<u8>)
        requires
            self.wf(),
        ensures
            frame@ == motor_frame(self.id, MotorOp::Jog, encode_signed(counts as int)),
    {
        self.counted_command(MotorOp::Jog, counts)
    }

    /// The frame that stops the motor at once.
    pub fn abrupt_stop(&self) -> (frame: Vec<u8>)
        requires
            self.wf(),
        ensures
            frame@ == motor_frame(self.id, MotorOp::AbruptStop, Seq::empty()),
    {
        self.plain_command(MotorOp::AbruptStop)
    }

    /// The frame that stops the motor along its deceleration ramp.
    pub fn stop(&self) -> (frame: Vec<u8>)
        requires
            self.wf(),
        ensures
            frame@ == motor_frame(self.id, MotorOp::Stop, Seq::empty()),
    {
        self.plain_command(MotorOp::Stop)
    }

    /// The frame that declares the current position to be `position` user
    /// units, or an error if the scaled position does not fit the wire.
    pub fn set_position(&self, position: i64) -> (result: Result<Vec<u8>, Error>)
        requires
            self.wf(),
        ensures
            result is Ok <==> i64::MIN <= scaled(position as int, self.scale as int) <= i64::MAX,
            match result {
                Ok(frame) => frame@ == motor_frame(
                    self.id,
                    MotorOp::SetPosition,
                    encode_signed(scaled(position as int, self.scale as int)),
                ),
                Err(e) => e.kind == ErrorKind::OutOfRange && describes(e, Seq::empty()),
            },
    {
        match self.to_counts(position) {
            Err(e) => Err(e),
            Ok(counts) => Ok(self.counted_command(MotorOp::SetPosition, counts)),
        }
    }

    /// The frame that sets the velocity limit to `counts` per second; a
    /// negative velocity is sent as zero.
    pub fn set_velocity(&self, counts: i64) -> (frame: Vec<u8>)
        requires
            self.wf(),
        ensures
            frame@ == motor_frame(
                self.id,
                MotorOp::SetVelocity,
                encode_signed(
                    if counts < 0 {
                        0
                    } else {
                        counts as int
                    },
                ),
            ),
    {
        let limited: i64 = if counts < 0 { 0 } else { counts };
        self.counted_command(MotorOp::SetVelocity, limited)
    }

    /// The frame that sets the acceleration to `counts`.
    pub fn set_acceleration(&self, counts: i64) -> (frame: Vec<u8>)
        requires
            self.wf(),
        ensures
            frame@ == motor_frame(self.id, MotorOp::SetAcceleration, encode_signed(counts as int)),
    {
        self.counted_command(MotorOp::SetAcceleration, counts)
    }

    /// The frame that sets the deceleration to `counts`.
    pub fn set_deceleration(&self, counts: i64) -> (frame: Vec<u8>)
        requires
            self.wf(),
        ensures
            frame@ == motor_frame(self.id, MotorOp::SetDeceleration, encode_signed(counts as int)),
    {
        self.counted_command(MotorOp::SetDeceleration, counts)
    }

    /// The frame that queries the status.
    pub fn get_status(&self) -> (frame: Vec<u8>)
        requires
            self.wf(),
        ensures
            frame@ == motor_frame(self.id, MotorOp::GetStatus, Seq::empty()),
    {
        self.plain_command(MotorOp::GetStatus)
    }

    /// The frame that queries the position.
    pub fn get_position(&self) -> (frame: Vec<u8>)
        requires
            self.wf(),
        ensures
            frame@ == motor_frame(self.id, MotorOp::GetPosition, Seq::empty()),
    {
        self.plain_command(MotorOp::GetPosition)
    }

    /// The position, in wire units, that the reply to a position query
    /// reports; dividing it by the scale gives user units.
    pub fn position_reply(&self, reply: &[u8]) -> (result: Result<i64, Error>)
        requires
            reply@.len() > RESULT_IDX,
        ensures
            result is Err <==> is_rejected(reply@),
            match result {
                Ok(counts) => counts == reply_value(reply@),
                Err(e) => e.kind == ErrorKind::ControllerRejected && describes(e, reply@),
            },
    {
        reply_number(reply)
    }

    /// The frame that clears the alerts of the motor.
    pub fn clear_alerts(&self) -> (frame: Vec<u8>)
        requires
            self.wf(),
        ensures
            frame@ == motor_frame(self.id, MotorOp::ClearAlerts, Seq::empty()),
    {
        self.plain_command(MotorOp::ClearAlerts)
    }

    /// What to do after a status reply while waiting for a move to end.
    pub fn wait_for_move(&self, reply: &[u8]) -> (result: Result<Progress, Error>)
        requires
            reply@.len() > RESULT_IDX,
        ensures
            agrees(result, wait_outcome(reply@)),
            match result {
                Ok(_) => true,
                Err(e) => describes(e, reply@),
            },
    {
        match status_reply(reply) {
            Err(e) => Err(e),
            Ok(Status::Moving) => Ok(Progress::TickThenPoll),
            Ok(_) => Ok(Progress::Done),
        }
    }
}

/// The payload of a scaled command is the signed decimal text of the
/// product of the value and the scale, and it reads back as that product.
pub proof fn lemma_motor_payload(id: u8, op: MotorOp, value: int, scale: int)
    requires
        id <= 9,
        scale > 0,
    ensures
        motor_frame(id, op, encode_signed(scaled(value, scale))).subrange(
            5,
            5 + encode_signed(scaled(value, scale)).len() as int,
        ) == encode_signed(scaled(value, scale)),
        crate::codec::parse_signed(
            motor_frame(id, op, encode_signed(scaled(value, scale))).skip(5),
        ) == scaled(value, scale),
{
    let payload = encode_signed(scaled(value, scale));
    let f = motor_frame(id, op, payload);
    assert(opcode_of(op).len() == 2);
    assert(f.subrange(5, 5 + payload.len() as int) =~= payload);
    assert(f.skip(5) =~= payload + seq![13u8]);
    let n = scaled(value, scale);
    let m: nat = if n < 0 { (-n) as nat } else { n as nat };
    crate::codec::lemma_digits_of_shape(m);
    if n < 0 {
        assert(payload.skip(1) =~= crate::codec::digits_of(m));
    } else {
        assert(payload.skip(1) =~= crate::codec::digits_of(m).skip(1));
    }
    crate::codec::lemma_parse_ignores_tail(payload, seq![13u8]);
    crate::codec::lemma_parse_encode_roundtrip(n);
}

} // verus!
