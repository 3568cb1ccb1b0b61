//! Replies of a motion controller and the errors they can carry.

use vstd::prelude::*;

verus! {

/// Index of the status byte in a reply.
pub const RESULT_IDX: usize = 3;

/// Status byte of a command that the controller refused.
pub const FAILED_REPLY: u8 = 63;

/// Number of bytes in the fixed window that a reply is read into.
pub const REPLY_WINDOW: usize = 100;

/// Identity and scale of one motor axis of a controller.
#[derive(Clone, Copy, Debug)]
pub struct MotorBuilder {
    pub id: u8,
    pub scale: usize,
}

/// What went wrong with a command.
#[derive(Clone, Copy, Debug, PartialEq, Eq, Structural)]
pub enum ErrorKind {
    /// The controller answered with the failure status byte.
    ControllerRejected,
    /// The motor ended in the faulted state after an enable.
    MotorFaulted,
    /// A status query returned a digit that names no status.
    UnknownStatus,
    /// A scaled value does not fit the integer that goes on the wire.
    OutOfRange,
    /// The connection broke before the reply arrived.
    Disconnected,
}

/// A command-level fault, with a text for the operator.
#[derive(Debug)]
pub struct Error {
    pub kind: ErrorKind,
    pub message: String,
}

/// Whether every byte of `bytes` is a 7-bit ASCII code.
pub open spec fn is_ascii_bytes(bytes: Seq<u8>) -> bool {
    forall|i: int| 0 <= i < bytes.len() ==> #[trigger] bytes[i] < 128
}

/// The characters that ASCII bytes stand for, one for one.
pub open spec fn text_of(bytes: Seq<u8>) -> Seq<char> {
    Seq::new(bytes.len(), |i: int| bytes[i] as char)
}

/// Text of `bytes`, made by `String::from_utf8_lossy`, which keeps valid
/// UTF-8 as it is. The contract claims only that ASCII bytes come out as
/// the characters with the same codes; of other input it says nothing.
#[verifier::external_body]
fn ascii_text(bytes: &[u8]) -> (text: String)
    ensures
        is_ascii_bytes(bytes@) ==> text@ == text_of(bytes@),
{
    String::from_utf8_lossy(bytes).into_owned()
}

/// Whether a reply carries the failure status byte.
pub open spec fn is_rejected(reply: Seq<u8>) -> bool
    recommends
        reply.len() > 3,
{
    reply[3] == 63
}

impl Error {
    /// The error of a reply that carries the failure status byte: its
    /// message is the reply as text.
    pub fn rejected(reply: &[u8]) -> (e: Error)
        ensures
            e.kind == ErrorKind::ControllerRejected,
            is_ascii_bytes(reply@) ==> e.message@ == text_of(reply@),
    {
        Error { kind: ErrorKind::ControllerRejected, message: ascii_text(reply) }
    }

    /// The error of a motor that is faulted after an enable.
    pub fn motor_faulted() -> (e: Error)
        ensures
            e.kind == ErrorKind::MotorFaulted,
            e.message@ == "motor faulted"@,
    {
        Error { kind: ErrorKind::MotorFaulted, message: "motor faulted".to_owned() }
    }

    /// The error of a status digit that names no status.
    pub fn unknown_status() -> (e: Error)
        ensures
            e.kind == ErrorKind::UnknownStatus,
            e.message@ == "unknown status"@,
    {
        Error { kind: ErrorKind::UnknownStatus, message: "unknown status".to_owned() }
    }

    /// The error of a request whose reply never came.
    pub fn disconnected() -> (e: Error)
        ensures
            e.kind == ErrorKind::Disconnected,
            e.message@ == "disconnected"@,
    {
        Error { kind: ErrorKind::Disconnected, message: "disconnected".to_owned() }
    }

    /// The error of a value that is too large for the wire once scaled.
    pub fn out_of_range() -> (e: Error)
        ensures
            e.kind == ErrorKind::OutOfRange,
            e.message@ == "value out of range"@,
    {
        Error { kind: ErrorKind::OutOfRange, message: "value out of range".to_owned() }
    }
}

/// Whether `result` is the success or the kind of failure that `expected`
/// names.
pub open spec fn agrees<T>(result: Result<T, Error>, expected: Result<T, ErrorKind>) -> bool {
    match (result, expected) {
        (Ok(a), Ok(b)) => a == b,
        (Err(e), Err(k)) => e.kind == k,
        _ => false,
    }
}

/// Whether the message of `e` is the one that its kind calls for, given the
/// reply that caused it: the reply as text for a refusal (stated for ASCII
/// replies), a fixed text for the other kinds.
pub open spec fn describes(e: Error, reply: Seq<u8>) -> bool {
    match e.kind {
        ErrorKind::ControllerRejected => is_ascii_bytes(reply) ==> e.message@ == text_of(reply),
        ErrorKind::MotorFaulted => e.message@ == "motor faulted"@,
        ErrorKind::UnknownStatus => e.message@ == "unknown status"@,
        ErrorKind::OutOfRange => e.message@ == "value out of range"@,
        ErrorKind::Disconnected => e.message@ == "disconnected"@,
    }
}

/// What a caller has of its request once the client is done with it: the
/// reply, if one was delivered and it reaches past the status byte, and a
/// `Disconnected` error otherwise.
pub fn received(delivered: Option<Vec<u8>>) -> (result: Result<Vec<u8>, Error>)
    ensures
        match result {
            Ok(reply) => delivered == Some(reply) && reply@.len() > RESULT_IDX,
            Err(e) => e.kind == ErrorKind::Disconnected && describes(e, Seq::empty()) && (
            match delivered {
                Some(reply) => reply@.len() <= RESULT_IDX,
                None => true,
            }),
        },
{
    match delivered {
        Some(reply) => {
            if reply.len() > RESULT_IDX {
                Ok(reply)
            } else {
                Err(Error::disconnected())
            }
        },
        None => Err(Error::disconnected()),
    }
}

/// Checks the status byte of a reply: a refused command becomes a
/// `ControllerRejected` error that carries the reply as text, any other
/// reply passes.
pub fn check_reply(reply: &[u8]) -> (result: Result<(), Error>)
    requires
        reply@.len() > RESULT_IDX,
    ensures
        result is Err <==> is_rejected(reply@),
        match result {
            Ok(_) => true,
            Err(e) => e.kind == ErrorKind::ControllerRejected && (is_ascii_bytes(reply@)
                ==> e.message@ == text_of(reply@)),
        },
{
    if reply[RESULT_IDX] == FAILED_REPLY {
        Err(Error::rejected(reply))
    } else {
        Ok(())
    }
}

} // verus!
