//! Position servo of the hatch and the sealer: drive until the feedback
//! passes the set point or the time is up, then switch off.

use vstd::prelude::*;
use crate::actuator::{feedback_position, Output, RelayHBridge};
use crate::io::{AnalogInput, HBridgeState};

verus! {

/// Period of the servo loop in milliseconds.
pub const SERVO_TICK_MS: u64 = 5;

/// Time that the heater stays on during a seal, in milliseconds.
pub const HEATER_DWELL_MS: u64 = 3000;

/// Side of the set point on which a move is still under way.
#[derive(Clone, Copy, Debug, PartialEq, Eq, Structural)]
pub enum Sense {
    /// Under way while the feedback is at or above the set point.
    Above,
    /// Under way while the feedback is at or below the set point.
    Below,
}

/// A servo move: the drive direction, the set point and the side on which
/// the move is under way.
#[derive(Clone, Copy, Debug, PartialEq, Eq, Structural)]
pub struct ServoMove {
    pub drive: HBridgeState,
    pub sense: Sense,
    pub set_point: i64,
}

/// A drive in one direction for a fixed time, followed by off.
#[derive(Clone, Copy, Debug, PartialEq, Eq, Structural)]
pub struct TimedMove {
    pub drive: HBridgeState,
    pub hold_ms: u64,
}

/// What the servo loop does after a feedback reading.
#[derive(Clone, Copy, Debug, PartialEq, Eq, Structural)]
pub enum ServoStep {
    /// Wait for the next tick and read again.
    Continue,
    /// The feedback has passed the set point: switch off.
    Reached,
    /// The time is up before the set point was passed: switch off, and
    /// report no error.
    TimedOut,
}

/// Whether a move is still under way at `feedback`.
pub open spec fn under_way(servo: ServoMove, feedback: i64) -> bool {
    match servo.sense {
        Sense::Above => feedback >= servo.set_point,
        Sense::Below => feedback <= servo.set_point,
    }
}

/// The step that follows a reading: a passed set point ends the move
/// whatever the time, then the timeout does, once the elapsed time has
/// reached it.
pub open spec fn servo_decision(
    servo: ServoMove,
    feedback: i64,
    elapsed_ms: u64,
    timeout_ms: u64,
) -> ServoStep {
    if !under_way(servo, feedback) {
        ServoStep::Reached
    } else if elapsed_ms >= timeout_ms {
        ServoStep::TimedOut
    } else {
        ServoStep::Continue
    }
}

/// Decides one tick of the servo loop.
pub fn servo_step(servo: ServoMove, feedback: i64, elapsed_ms: u64, timeout_ms: u64) -> (step:
    ServoStep)
    ensures
        step == servo_decision(servo, feedback, elapsed_ms, timeout_ms),
{
    let moving = match servo.sense {
        Sense::Above => feedback >= servo.set_point,
        Sense::Below => feedback <= servo.set_point,
    };
    if !moving {
        ServoStep::Reached
    } else if elapsed_ms >= timeout_ms {
        ServoStep::TimedOut
    } else {
        ServoStep::Continue
    }
}

/// A move never goes on once its time is up, and it goes on until then
/// for as long as the feedback stays on the near side of the set point.
pub proof fn lemma_servo_stops(servo: ServoMove, feedback: i64, elapsed_ms: u64, timeout_ms: u64)
    ensures
        elapsed_ms >= timeout_ms ==> servo_decision(servo, feedback, elapsed_ms, timeout_ms)
            != ServoStep::Continue,
        elapsed_ms < timeout_ms && under_way(servo, feedback) ==> servo_decision(
            servo,
            feedback,
            elapsed_ms,
            timeout_ms,
        ) == ServoStep::Continue,
        servo_decision(servo, feedback, elapsed_ms, timeout_ms) == ServoStep::TimedOut
            ==> under_way(servo, feedback),
{
}

/// A hatch on a relay-driven actuator.
#[derive(Clone, Copy, Debug)]
pub struct Hatch {
    pub actuator: RelayHBridge,
    pub timeout_ms: u64,
}

impl Hatch {
    /// A hatch on `actuator` whose moves give up after `timeout_ms`.
    pub fn new(actuator: RelayHBridge, timeout_ms: u64) -> (hatch: Self)
        ensures
            hatch.actuator == actuator,
            hatch.timeout_ms == timeout_ms,
    {
        Self { actuator, timeout_ms }
    }

    /// A hatch on the relays `ch_a` and `ch_b` with the feedback `fb`.
    pub fn from_io(ch_a: Output, ch_b: Output, fb: AnalogInput, timeout_ms: u64) -> (hatch: Self)
        ensures
            hatch.actuator.output_pair == (ch_a, ch_b),
            hatch.actuator.fb_pair == (fb, None::<AnalogInput>),
            hatch.timeout_ms == timeout_ms,
    {
        Self::new(RelayHBridge::new((ch_a, ch_b), fb), timeout_ms)
    }

    /// The position from the readings of the feedbacks.
    pub fn get_position(&self, first: i64, second: Option<i64>) -> (position: i64)
        ensures
            position == feedback_position(first as int, second),
    {
        self.actuator.get_feedback(first, second)
    }

    /// An opening drive held for `hold_ms`.
    pub fn timed_open(&self, hold_ms: u64) -> (timed: TimedMove)
        ensures
            timed == (TimedMove { drive: HBridgeState::Pos, hold_ms }),
    {
        TimedMove { drive: HBridgeState::Pos, hold_ms }
    }

    /// The opening move to `set_point`: a forward drive that is under way
    /// while the feedback is at or above the set point.
    pub fn open(&self, set_point: i64) -> (servo: ServoMove)
        ensures
            servo == (ServoMove { drive: HBridgeState::Pos, sense: Sense::Above, set_point }),
    {
        ServoMove { drive: HBridgeState::Pos, sense: Sense::Above, set_point }
    }

    /// A closing drive held for `hold_ms`.
    pub fn timed_close(&self, hold_ms: u64) -> (timed: TimedMove)
        ensures
            timed == (TimedMove { drive: HBridgeState::Neg, hold_ms }),
    {
        TimedMove { drive: HBridgeState::Neg, hold_ms }
    }

    /// The closing move to `set_point`: a reverse drive that is under way
    /// while the feedback is at or below the set point.
    pub fn close(&self, set_point: i64) -> (servo: ServoMove)
        ensures
            servo == (ServoMove { drive: HBridgeState::Neg, sense: Sense::Below, set_point }),
    {
        ServoMove { drive: HBridgeState::Neg, sense: Sense::Below, set_point }
    }

    /// Decides one tick of a move of this hatch.
    pub fn step(&self, servo: ServoMove, feedback: i64, elapsed_ms: u64) -> (step: ServoStep)
        ensures
            step == servo_decision(servo, feedback, elapsed_ms, self.timeout_ms),
    {
        servo_step(servo, feedback, elapsed_ms, self.timeout_ms)
    }
}

/// One step of a seal.
#[derive(Clone, Copy, Debug, PartialEq, Eq, Structural)]
pub enum SealStep {
    /// Bring the actuator to a position by the servo loop.
    MoveTo(i64),
    /// Drive the actuator for a fixed time.
    Timed(TimedMove),
    /// Switch the heater.
    Heater(bool),
    /// Wait, in milliseconds.
    Dwell(u64),
}

/// The steps of a seal between an outward and a return step: heater on,
/// dwell, heater off.
pub open spec fn seal_steps(outward: SealStep, back: SealStep) -> Seq<SealStep> {
    seq![
        outward,
        SealStep::Heater(true),
        SealStep::Dwell(HEATER_DWELL_MS),
        SealStep::Heater(false),
        back,
    ]
}

/// The move that brings the actuator from `current` to `position`: a
/// retraction from above, an extension from below, none when it is there.
pub open spec fn move_toward(current: i64, position: i64) -> Option<ServoMove> {
    if current > position {
        Some(ServoMove { drive: HBridgeState::Neg, sense: Sense::Above, set_point: position })
    } else if current < position {
        Some(ServoMove { drive: HBridgeState::Pos, sense: Sense::Below, set_point: position })
    } else {
        None
    }
}

/// A heat sealer: a heater output and a relay-driven actuator that moves
/// between two set points.
#[derive(Clone, Copy, Debug)]
pub struct Sealer {
    pub heater: Output,
    pub actuator: RelayHBridge,
    pub timeout_ms: u64,
    pub extend_setpoint: i64,
    pub retract_setpoint: i64,
}

impl Sealer {
    /// A sealer from its parts.
    pub fn new(
        heater: Output,
        actuator: RelayHBridge,
        timeout_ms: u64,
        extend_setpoint: i64,
        retract_setpoint: i64,
    ) -> (sealer: Self)
        ensures
            sealer.heater == heater,
            sealer.actuator == actuator,
            sealer.timeout_ms == timeout_ms,
            sealer.extend_setpoint == extend_setpoint,
            sealer.retract_setpoint == retract_setpoint,
    {
        Self { heater, actuator, timeout_ms, extend_setpoint, retract_setpoint }
    }

    /// The move from the measured position `current` to `position`, if one
    /// is needed.
    pub fn absolute_move(&self, current: i64, position: i64) -> (servo: Option<ServoMove>)
        ensures
            servo == move_toward(current, position),
    {
        if current > position {
            Some(ServoMove { drive: HBridgeState::Neg, sense: Sense::Above, set_point: position })
        } else if current < position {
            Some(ServoMove { drive: HBridgeState::Pos, sense: Sense::Below, set_point: position })
        } else {
            None
        }
    }

    /// An extending drive held for `hold_ms`.
    pub fn timed_extend_actuator(&self, hold_ms: u64) -> (timed: TimedMove)
        ensures
            timed == (TimedMove { drive: HBridgeState::Pos, hold_ms }),
    {
        TimedMove { drive: HBridgeState::Pos, hold_ms }
    }

    /// A retracting drive held for `hold_ms`.
    pub fn timed_retract_actuator(&self, hold_ms: u64) -> (timed: TimedMove)
        ensures
            timed == (TimedMove { drive: HBridgeState::Neg, hold_ms }),
    {
        TimedMove { drive: HBridgeState::Neg, hold_ms }
    }

    /// Decides one tick of a move of this sealer.
    pub fn step(&self, servo: ServoMove, feedback: i64, elapsed_ms: u64) -> (step: ServoStep)
        ensures
            step == servo_decision(servo, feedback, elapsed_ms, self.timeout_ms),
    {
        servo_step(servo, feedback, elapsed_ms, self.timeout_ms)
    }

    /// The steps of a seal: extend to the set point, heat for the dwell
    /// time, retract to the set point.
    pub fn seal(&self) -> (steps: Vec<SealStep>)
        ensures
            steps@ == seal_steps(
                SealStep::MoveTo(self.extend_setpoint),
                SealStep::MoveTo(self.retract_setpoint),
            ),
    {
        self.cycle(SealStep::MoveTo(self.extend_setpoint), SealStep::MoveTo(self.retract_setpoint))
    }

    /// The steps of a seal whose two moves are drives of `hold_ms` each.
    pub fn timed_move_seal(&self, hold_ms: u64) -> (steps: Vec<SealStep>)
        ensures
            steps@ == seal_steps(
                SealStep::Timed(TimedMove { drive: HBridgeState::Pos, hold_ms }),
                SealStep::Timed(TimedMove { drive: HBridgeState::Neg, hold_ms }),
            ),
    {
        self.cycle(
            SealStep::Timed(self.timed_extend_actuator(hold_ms)),
            SealStep::Timed(self.timed_retract_actuator(hold_ms)),
        )
    }

    /// The heat cycle between two given moves.
    fn cycle(&self, outward: SealStep, back: SealStep) -> (steps: Vec<SealStep>)
        ensures
            steps@ == seal_steps(outward, back),
    {
        let mut steps: Vec<SealStep> = Vec::new();
        steps.push(outward);
        steps.push(SealStep::Heater(true));
        steps.push(SealStep::Dwell(HEATER_DWELL_MS));
        steps.push(SealStep::Heater(false));
        steps.push(back);
        assert(steps@ =~= seal_steps(outward, back));
        steps
    }
}

} // verus!
