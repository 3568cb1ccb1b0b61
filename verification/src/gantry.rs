//! Single-axis gantry: the steps of a move to a position.

use vstd::prelude::*;
use crate::controller::{agrees, check_reply, describes, is_rejected, Error, ErrorKind, RESULT_IDX};
use crate::io::{reply_number, reply_value};
use crate::motor::{status_of_reply, status_reply, Status};

verus! {

/// Time between two status polls of a move, in milliseconds.
pub const GANTRY_POLL_MS: u64 = 250;

/// Where a move stands: the move command is on the wire, status polls
/// are, or the position query is.
#[derive(Clone, Copy, Debug, PartialEq, Eq, Structural)]
pub enum GantryPhase {
    Commanded,
    Settling,
    Locating,
}

/// What follows one reply during a move.
#[derive(Clone, Copy, Debug, PartialEq, Eq, Structural)]
pub enum GantryStep {
    /// Query the status at once.
    Poll,
    /// Sleep for the poll time, then query the status.
    SleepThenPoll,
    /// Query the position.
    Locate,
    /// The move is over at this position, in wire units: answer the caller.
    Arrived(i64),
}

/// What a reply means to a move in `phase`.
pub open spec fn gantry_outcome(phase: GantryPhase, reply: Seq<u8>) -> Result<GantryStep, ErrorKind>
    recommends
        reply.len() > 3,
{
    match phase {
        GantryPhase::Commanded => if is_rejected(reply) {
            Err(ErrorKind::ControllerRejected)
        } else {
            Ok(GantryStep::Poll)
        },
        GantryPhase::Settling => match status_of_reply(reply) {
            Err(kind) => Err(kind),
            Ok(Status::Moving) => Ok(GantryStep::SleepThenPoll),
            Ok(_) => Ok(GantryStep::Locate),
        },
        GantryPhase::Locating => if is_rejected(reply) {
            Err(ErrorKind::ControllerRejected)
        } else {
            Ok(GantryStep::Arrived(reply_value(reply) as i64))
        },
    }
}

/// Decides what follows a reply during a move: the accepted command is
/// followed by status polls, these go on while the motor moves, and the
/// position is read once it has stopped.
pub fn gantry(phase: GantryPhase, reply: &[u8]) -> (result: Result<GantryStep, Error>)
    requires
        reply@.len() > RESULT_IDX,
    ensures
        agrees(result, gantry_outcome(phase, reply@)),
        match result {
            Ok(_) => true,
            Err(e) => describes(e, reply@),
        },
{
    match phase {
        GantryPhase::Commanded => match check_reply(reply) {
            Err(e) => Err(e),
            Ok(_) => Ok(GantryStep::Poll),
        },
        GantryPhase::Settling => match status_reply(reply) {
            Err(e) => Err(e),
            Ok(Status::Moving) => Ok(GantryStep::SleepThenPoll),
            Ok(_) => Ok(GantryStep::Locate),
        },
        GantryPhase::Locating => match reply_number(reply) {
            Err(e) => Err(e),
            Ok(counts) => Ok(GantryStep::Arrived(counts)),
        },
    }
}

} // verus!
