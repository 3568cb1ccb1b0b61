//! Decisions of the weight-controlled dispense loop. Weights are measured
//! and filtered by the caller; the loop is told how they compare with its
//! thresholds and answers with the motor orders to issue and with what to
//! do next.

use vstd::prelude::*;
use vstd::std_specs::convert::FromSpecImpl;
use crate::codec::encode_signed;
use crate::controller::{describes, ErrorKind};
use crate::motor::{motor_frame, scaled, ClearCoreMotor, MotorOp};

verus! {

/// Period of the control cycle in milliseconds.
pub const CYCLE_MS: u64 = 500;

/// Shortest time between two speed updates, in milliseconds.
pub const SPEED_UPDATE_MS: u64 = 200;

/// Revolutions commanded to begin dispensing.
pub const START_REVOLUTIONS: i64 = 100;

/// Revolutions commanded with each speed update, so that the controller
/// plans its motion anew with the new velocity.
pub const NUDGE_REVOLUTIONS: i64 = 20;

/// Revolutions commanded when a confirmation finds the weight not yet
/// reached.
pub const RESUME_REVOLUTIONS: i64 = 10;

/// Number of samples whose median confirms the end.
pub const CONFIRM_SAMPLES: usize = 15;

/// Marker of a dispense that ran out of time.
#[derive(Clone, Copy, Debug, PartialEq, Eq, Structural)]
pub struct DispenseTimeout;

/// Why a dispense failed.
#[derive(Debug)]
pub enum Error {
    /// The motor refused or faulted.
    Motor(crate::controller::Error),
    /// The deadline passed.
    Timeout,
}

impl From<crate::controller::Error> for Error {
    fn from(value: crate::controller::Error) -> (e: Self) {
        Error::Motor(value)
    }
}

impl FromSpecImpl<crate::controller::Error> for Error {
    open spec fn obeys_from_spec() -> bool {
        true
    }

    open spec fn from_spec(value: crate::controller::Error) -> Self {
        Error::Motor(value)
    }
}

impl From<DispenseTimeout> for Error {
    fn from(value: DispenseTimeout) -> (e: Self) {
        Error::Timeout
    }
}

impl FromSpecImpl<DispenseTimeout> for Error {
    open spec fn obeys_from_spec() -> bool {
        true
    }

    open spec fn from_spec(value: DispenseTimeout) -> Self {
        Error::Timeout
    }
}

/// How a dispense ended.
#[derive(Clone, Copy, Debug, PartialEq, Eq, Structural)]
pub enum EndKind {
    /// The confirmed weight is within the stop offset of the target.
    WeightAchieved,
    /// The deadline passed first.
    Timeout,
    /// A shutdown was requested.
    Failed,
}

/// What a dispense aims at: a weight within a time limit, or a run of a
/// fixed time. Times are in milliseconds.
#[derive(Clone, Copy, Debug, PartialEq, Eq, Structural)]
pub enum Setpoint {
    Weight { timeout_ms: u64 },
    Timed(u64),
}

/// Which of the optional retractions are configured.
#[derive(Clone, Copy, Debug, PartialEq, Eq, Structural)]
pub struct Parameters {
    pub retract_before: bool,
    pub retract_after: bool,
}

/// One order to the motor, or a wait. Velocities and retractions are
/// named, not valued: their values are the caller's.
#[derive(Clone, Copy, Debug, PartialEq, Eq, Structural)]
pub enum MotorOrder {
    /// Set the velocity to the base motor speed.
    SetBaseVelocity,
    /// Set the velocity to the error times the base motor speed.
    SetScaledVelocity,
    /// Move forward by this many revolutions.
    Advance(i64),
    /// Move back by the retraction configured before the dispense.
    RetractBefore,
    /// Move back by the retraction configured after the dispense.
    RetractAfter,
    /// Poll the status until the motor no longer moves.
    WaitForMove,
    /// Stop at once.
    AbruptStop,
    /// Wait, in milliseconds.
    Dwell(u64),
}

/// Where the control loop of a weight dispense stands.
#[derive(Clone, Copy, Debug, PartialEq, Eq, Structural)]
pub enum Phase {
    /// At the head of a cycle: the shutdown flag and the clock are looked
    /// at next.
    Head,
    /// A sample is taken and filtered next.
    Sampling,
    /// The motor is stopped and the median of the confirmation samples is
    /// taken next.
    Confirming,
    /// The dispense is over.
    Ended(EndKind),
}

/// State of the control loop: its phase and the time of the last speed
/// update, in milliseconds since the start.
#[derive(Clone, Copy, Debug, PartialEq, Eq, Structural)]
pub struct LoopState {
    pub phase: Phase,
    pub last_update_ms: u64,
}

/// What the caller observed for the phase the loop stands in. Times are in
/// milliseconds since the start.
#[derive(Clone, Copy, Debug, PartialEq, Eq, Structural)]
pub enum Event {
    /// For `Head`: the shutdown flag and the time.
    Clock { shutdown: bool, elapsed_ms: u64 },
    /// For `Sampling`: the time, whether the error times the base speed
    /// reaches the floor of 0.1, whether it exceeds the base speed, and
    /// whether the filtered weight is below the target plus the check
    /// offset.
    Sample { elapsed_ms: u64, reaches_floor: bool, exceeds_base: bool, below_check: bool },
    /// For `Confirming`: whether the median is below the target plus the
    /// stop offset.
    Median { below_stop: bool },
}

/// Whether `event` is the observation that `phase` waits for.
pub open spec fn fits(phase: Phase, event: Event) -> bool {
    match (phase, event) {
        (Phase::Head, Event::Clock { .. }) => true,
        (Phase::Sampling, Event::Sample { .. }) => true,
        (Phase::Confirming, Event::Median { .. }) => true,
        _ => false,
    }
}

/// The orders that start a dispense: base velocity, the retraction before
/// with a wait for its end if one is configured, then the opening move.
pub open spec fn start_sequence(parameters: Parameters) -> Seq<MotorOrder> {
    if parameters.retract_before {
        seq![
            MotorOrder::SetBaseVelocity,
            MotorOrder::RetractBefore,
            MotorOrder::WaitForMove,
            MotorOrder::Advance(START_REVOLUTIONS),
        ]
    } else {
        seq![MotorOrder::SetBaseVelocity, MotorOrder::Advance(START_REVOLUTIONS)]
    }
}

/// Time from the last speed update to `elapsed_ms`.
pub open spec fn since_update(last_update_ms: u64, elapsed_ms: u64) -> int {
    if elapsed_ms >= last_update_ms {
        elapsed_ms - last_update_ms
    } else {
        0
    }
}

/// Whether a speed update is due: more than the update period has passed
/// since the last one.
pub open spec fn update_due(last_update_ms: u64, elapsed_ms: u64) -> bool {
    since_update(last_update_ms, elapsed_ms) > SPEED_UPDATE_MS
}

/// The orders of a speed update. Nothing is sent while no update is due.
/// When one is, a speed that reaches the floor is set, held to the base
/// speed if it exceeds it, and the nudge follows in any case.
pub open spec fn speed_sequence(due: bool, reaches_floor: bool, exceeds_base: bool) -> Seq<
    MotorOrder,
> {
    if !due {
        Seq::empty()
    } else if !reaches_floor {
        seq![MotorOrder::Advance(NUDGE_REVOLUTIONS)]
    } else if exceeds_base {
        seq![MotorOrder::SetBaseVelocity, MotorOrder::Advance(NUDGE_REVOLUTIONS)]
    } else {
        seq![MotorOrder::SetScaledVelocity, MotorOrder::Advance(NUDGE_REVOLUTIONS)]
    }
}

/// The orders that close a dispense: always a stop at once, and after a
/// reached weight the retraction after, if one is configured.
pub open spec fn end_sequence(end: EndKind, parameters: Parameters) -> Seq<MotorOrder> {
    if end == EndKind::WeightAchieved && parameters.retract_after {
        seq![MotorOrder::AbruptStop, MotorOrder::RetractAfter]
    } else {
        seq![MotorOrder::AbruptStop]
    }
}

/// The state and the orders that follow an observation.
///
/// At the head of a cycle a shutdown ends the dispense as failed, and a
/// deadline that the elapsed time exceeds ends it as timed out; otherwise a
/// sample is due. A sample is followed by the speed update, if one is due,
/// which then counts as the last; a filtered weight below the check
/// threshold then stops the motor for a confirmation, any other goes to the
/// next cycle. A confirmed weight ends the dispense as achieved; an
/// unconfirmed one moves on and goes to the next cycle. An observation that
/// the phase does not wait for leaves the state as it is, with no order.
pub open spec fn dispense_next(
    parameters: Parameters,
    timeout_ms: u64,
    state: LoopState,
    event: Event,
) -> (LoopState, Seq<MotorOrder>) {
    match (state.phase, event) {
        (Phase::Head, Event::Clock { shutdown, elapsed_ms }) => if shutdown {
            (
                LoopState { phase: Phase::Ended(EndKind::Failed), ..state },
                end_sequence(EndKind::Failed, parameters),
            )
        } else if elapsed_ms > timeout_ms {
            (
                LoopState { phase: Phase::Ended(EndKind::Timeout), ..state },
                end_sequence(EndKind::Timeout, parameters),
            )
        } else {
            (LoopState { phase: Phase::Sampling, ..state }, Seq::empty())
        },
        (Phase::Sampling, Event::Sample { elapsed_ms, reaches_floor, exceeds_base, below_check }) => {
            let due = update_due(state.last_update_ms, elapsed_ms);
            let speed = speed_sequence(due, reaches_floor, exceeds_base);
            (
                LoopState {
                    phase: if below_check {
                        Phase::Confirming
                    } else {
                        Phase::Head
                    },
                    last_update_ms: if due {
                        elapsed_ms
                    } else {
                        state.last_update_ms
                    },
                },
                if below_check {
                    speed.push(MotorOrder::AbruptStop)
                } else {
                    speed
                },
            )
        },
        (Phase::Confirming, Event::Median { below_stop }) => if below_stop {
            (
                LoopState { phase: Phase::Ended(EndKind::WeightAchieved), ..state },
                end_sequence(EndKind::WeightAchieved, parameters),
            )
        } else {
            (
                LoopState { phase: Phase::Head, ..state },
                seq![MotorOrder::Advance(RESUME_REVOLUTIONS)],
            )
        },
        _ => (state, Seq::empty()),
    }
}

/// The orders of a timed dispense.
pub open spec fn timed_sequence(parameters: Parameters, duration_ms: u64) -> Seq<MotorOrder> {
    start_sequence(parameters) + seq![MotorOrder::Dwell(duration_ms), MotorOrder::AbruptStop] + (
    if parameters.retract_after {
        seq![MotorOrder::RetractAfter]
    } else {
        Seq::empty()
    })
}

/// A dispenser: its motor, what it aims at and its retractions.
#[derive(Clone, Copy, Debug)]
pub struct Dispenser {
    pub motor: ClearCoreMotor,
    pub setpoint: Setpoint,
    pub parameters: Parameters,
}

impl Dispenser {
    /// The time limit of a weight dispense; a timed dispense has none.
    pub open spec fn timeout_ms(&self) -> u64 {
        match self.setpoint {
            Setpoint::Weight { timeout_ms } => timeout_ms,
            Setpoint::Timed(_) => u64::MAX,
        }
    }

    /// A dispenser from its parts.
    pub fn new(motor: ClearCoreMotor, setpoint: Setpoint, parameters: Parameters) -> (dispenser:
        Self)
        ensures
            dispenser.motor == motor,
            dispenser.setpoint == setpoint,
            dispenser.parameters == parameters,
    {
        Self { motor, setpoint, parameters }
    }

    /// The state in which the control loop begins and the orders that start
    /// the dispense.
    pub fn start(&self) -> (begin: (LoopState, Vec<MotorOrder>))
        ensures
            begin.0 == (LoopState { phase: Phase::Head, last_update_ms: 0 }),
            begin.1@ == start_sequence(self.parameters),
    {
        let mut orders: Vec<MotorOrder> = Vec::new();
        orders.push(MotorOrder::SetBaseVelocity);
        if self.parameters.retract_before {
            orders.push(MotorOrder::RetractBefore);
            orders.push(MotorOrder::WaitForMove);
        }
        orders.push(MotorOrder::Advance(START_REVOLUTIONS));
        assert(orders@ =~= start_sequence(self.parameters));
        (LoopState { phase: Phase::Head, last_update_ms: 0 }, orders)
    }

    /// The orders of a speed update at `elapsed_ms`, given the time of the
    /// last one and how the scaled speed compares with the floor and with
    /// the base speed, and the time of what is then the last update.
    pub fn update_motor_speed(
        &self,
        last_update_ms: u64,
        elapsed_ms: u64,
        reaches_floor: bool,
        exceeds_base: bool,
    ) -> (update: (u64, Vec<MotorOrder>))
        ensures
            update.0 == if update_due(last_update_ms, elapsed_ms) {
                elapsed_ms
            } else {
                last_update_ms
            },
            update.1@ == speed_sequence(
                update_due(last_update_ms, elapsed_ms),
                reaches_floor,
                exceeds_base,
            ),
    {
        let mut orders: Vec<MotorOrder> = Vec::new();
        let due = elapsed_ms >= last_update_ms && elapsed_ms - last_update_ms > SPEED_UPDATE_MS;
        if due {
            if reaches_floor {
                if exceeds_base {
                    orders.push(MotorOrder::SetBaseVelocity);
                } else {
                    orders.push(MotorOrder::SetScaledVelocity);
                }
            }
            orders.push(MotorOrder::Advance(NUDGE_REVOLUTIONS));
        }
        assert(orders@ =~= speed_sequence(due, reaches_floor, exceeds_base));
        (if due { elapsed_ms } else { last_update_ms }, orders)
    }

    /// The orders that close the dispense after `end`.
    pub fn finish(&self, end: EndKind) -> (orders: Vec<MotorOrder>)
        ensures
            orders@ == end_sequence(end, self.parameters),
    {
        let mut orders: Vec<MotorOrder> = Vec::new();
        orders.push(MotorOrder::AbruptStop);
        if end == EndKind::WeightAchieved && self.parameters.retract_after {
            orders.push(MotorOrder::RetractAfter);
        }
        assert(orders@ =~= end_sequence(end, self.parameters));
        orders
    }

    /// One step of the control loop of a weight dispense: from the state
    /// and what was observed for its phase to the next state and the orders
    /// to issue before it. After a step to `Head` the caller waits for the
    /// next tick of the cycle. An observation that the phase does not wait
    /// for changes nothing.
    pub fn dispense(&self, state: LoopState, event: Event) -> (next: (LoopState, Vec<MotorOrder>))
        ensures
            (next.0, next.1@) == dispense_next(self.parameters, self.timeout_ms(), state, event),
    {
        let timeout_ms: u64 = match self.setpoint {
            Setpoint::Weight { timeout_ms } => timeout_ms,
            Setpoint::Timed(_) => u64::MAX,
        };
        let last_update_ms = state.last_update_ms;
        match (state.phase, event) {
            (Phase::Head, Event::Clock { shutdown, elapsed_ms }) => {
                if shutdown {
                    (
                        LoopState { phase: Phase::Ended(EndKind::Failed), last_update_ms },
                        self.finish(EndKind::Failed),
                    )
                } else if elapsed_ms > timeout_ms {
                    (
                        LoopState { phase: Phase::Ended(EndKind::Timeout), last_update_ms },
                        self.finish(EndKind::Timeout),
                    )
                } else {
                    (LoopState { phase: Phase::Sampling, last_update_ms }, Vec::new())
                }
            },
            (
                Phase::Sampling,
                Event::Sample { elapsed_ms, reaches_floor, exceeds_base, below_check },
            ) => {
                let (updated_ms, mut orders) = self.update_motor_speed(
                    last_update_ms,
                    elapsed_ms,
                    reaches_floor,
                    exceeds_base,
                );
                if below_check {
                    orders.push(MotorOrder::AbruptStop);
                    (LoopState { phase: Phase::Confirming, last_update_ms: updated_ms }, orders)
                } else {
                    (LoopState { phase: Phase::Head, last_update_ms: updated_ms }, orders)
                }
            },
            (Phase::Confirming, Event::Median { below_stop }) => {
                if below_stop {
                    (
                        LoopState { phase: Phase::Ended(EndKind::WeightAchieved), last_update_ms },
                        self.finish(EndKind::WeightAchieved),
                    )
                } else {
                    let mut orders: Vec<MotorOrder> = Vec::new();
                    orders.push(MotorOrder::Advance(RESUME_REVOLUTIONS));
                    assert(orders@ =~= seq![MotorOrder::Advance(RESUME_REVOLUTIONS)]);
                    (LoopState { phase: Phase::Head, last_update_ms }, orders)
                }
            },
            _ => (state, Vec::new()),
        }
    }

    /// The orders of a timed dispense of `duration_ms`.
    pub fn timed(&self, duration_ms: u64) -> (orders: Vec<MotorOrder>)
        ensures
            orders@ == timed_sequence(self.parameters, duration_ms),
    {
        let (_, mut orders) = self.start();
        orders.push(MotorOrder::Dwell(duration_ms));
        orders.push(MotorOrder::AbruptStop);
        if self.parameters.retract_after {
            orders.push(MotorOrder::RetractAfter);
        }
        assert(orders@ =~= timed_sequence(self.parameters, duration_ms));
        orders
    }

    /// The frame of a forward move by whole `revolutions`, or an error if
    /// the scaled distance does not fit the wire.
    pub fn advance(&self, revolutions: i64) -> (result: Result<Vec<u8>, crate::controller::Error>)
        requires
            self.motor.wf(),
        ensures
            result is Ok <==> i64::MIN <= scaled(revolutions as int, self.motor.scale as int)
                <= i64::MAX,
            match result {
                Ok(frame) => frame@ == motor_frame(
                    self.motor.id,
                    MotorOp::RelativeMove,
                    encode_signed(scaled(revolutions as int, self.motor.scale as int)),
                ),
                Err(e) => e.kind == ErrorKind::OutOfRange && describes(e, Seq::empty()),
            },
    {
        match self.motor.to_counts(revolutions) {
            Err(e) => Err(e),
            Ok(counts) => Ok(self.motor.relative_move(counts)),
        }
    }
}

/// A step that ends a dispense stops the motor at once before anything
/// else; a shutdown or a passed deadline is acted on at the head of a cycle
/// whatever the weights are, and a weight counts as achieved only after a
/// confirmation, which itself follows a stop.
pub proof fn lemma_dispense_ends(
    parameters: Parameters,
    timeout_ms: u64,
    state: LoopState,
    event: Event,
)
    requires
        fits(state.phase, event),
    ensures
        ({
            let next = dispense_next(parameters, timeout_ms, state, event);
            &&& next.0.phase is Ended ==> next.1.len() >= 1 && next.1[0] == MotorOrder::AbruptStop
            &&& next.0.phase == Phase::Ended(EndKind::WeightAchieved) ==> state.phase
                == Phase::Confirming
            &&& (next.0.phase == Phase::Ended(EndKind::Failed) || next.0.phase == Phase::Ended(
                EndKind::Timeout,
            )) ==> state.phase == Phase::Head
            &&& next.0.phase == Phase::Confirming ==> next.1.last() == MotorOrder::AbruptStop
            &&& (event matches Event::Clock { shutdown, .. } && shutdown) ==> next.0.phase
                == Phase::Ended(EndKind::Failed)
            &&& (event matches Event::Clock { shutdown, elapsed_ms } && !shutdown && elapsed_ms
                > timeout_ms) ==> next.0.phase == Phase::Ended(EndKind::Timeout)
        }),
{
}

/// Speed updates keep their distance: a sample that comes within the
/// update period of the last update changes neither velocity nor position,
/// and a sample on which an update is made becomes the last update.
pub proof fn lemma_speed_update_spacing(
    parameters: Parameters,
    timeout_ms: u64,
    state: LoopState,
    elapsed_ms: u64,
    reaches_floor: bool,
    exceeds_base: bool,
    below_check: bool,
)
    requires
        state.phase == Phase::Sampling,
    ensures
        ({
            let event = Event::Sample { elapsed_ms, reaches_floor, exceeds_base, below_check };
            let next = dispense_next(parameters, timeout_ms, state, event);
            &&& elapsed_ms <= state.last_update_ms + SPEED_UPDATE_MS ==> next.0.last_update_ms
                == state.last_update_ms && next.1 == if below_check {
                seq![MotorOrder::AbruptStop]
            } else {
                Seq::<MotorOrder>::empty()
            }
            &&& elapsed_ms > state.last_update_ms + SPEED_UPDATE_MS ==> next.0.last_update_ms
                == elapsed_ms && next.1.contains(MotorOrder::Advance(NUDGE_REVOLUTIONS))
        }),
{
    let event = Event::Sample { elapsed_ms, reaches_floor, exceeds_base, below_check };
    let next = dispense_next(parameters, timeout_ms, state, event);
    let due = update_due(state.last_update_ms, elapsed_ms);
    let speed = speed_sequence(due, reaches_floor, exceeds_base);
    if due {
        let nudge = MotorOrder::Advance(NUDGE_REVOLUTIONS);
        assert(speed.last() == nudge);
        assert(speed[speed.len() - 1] == nudge);
        if below_check {
            assert(speed.push(MotorOrder::AbruptStop)[speed.len() - 1] == nudge);
        }
    } else {
        assert(speed.push(MotorOrder::AbruptStop) =~= seq![MotorOrder::AbruptStop]);
    }
}

} // verus!
