//! Digital, analog and H-bridge channels of a motion controller: the frames
//! that address them and the meaning of their replies.

use vstd::prelude::*;
use vstd::slice::slice_subrange;
use crate::codec::{ascii_to_int, clamp_i64, encode_signed, num_to_bytes, parse_signed};
use crate::controller::{
    check_reply,
    is_ascii_bytes,
    is_rejected,
    text_of,
    Error,
    ErrorKind,
    RESULT_IDX,
};
use crate::frame::{build_frame, frame_of, TYPE_INPUT, TYPE_OUTPUT};

verus! {

/// Largest power level that an H-bridge output takes.
pub const CLEAR_CORE_H_BRIDGE_MAX: i16 = 32760;

/// The number that a query reply carries: the signed decimal text that
/// starts at the status index, held within `i64`.
pub open spec fn reply_value(reply: Seq<u8>) -> int
    recommends
        reply.len() > 3,
{
    clamp_i64(parse_signed(reply.skip(3)))
}

/// Reads the number that a query reply carries, unless the reply is a
/// refusal.
pub fn reply_number(reply: &[u8]) -> (result: Result<i64, Error>)
    requires
        reply@.len() > RESULT_IDX,
    ensures
        result is Err <==> is_rejected(reply@),
        match result {
            Ok(value) => value == reply_value(reply@),
            Err(e) => e.kind == ErrorKind::ControllerRejected && (is_ascii_bytes(reply@)
                ==> e.message@ == text_of(reply@)),
        },
{
    match check_reply(reply) {
        Err(e) => Err(e),
        Ok(_) => {
            let payload = slice_subrange(reply, RESULT_IDX, reply.len());
            assert(payload@ =~= reply@.skip(3));
            Ok(ascii_to_int(payload))
        },
    }
}

/// A digital input channel.
#[derive(Clone, Copy, Debug)]
pub struct DigitalInput {
    pub id: u8,
}

impl DigitalInput {
    /// Whether the channel id is a single digit.
    pub open spec fn wf(&self) -> bool {
        self.id <= 9
    }

    /// The input channel `id`.
    pub fn new(id: u8) -> (input: Self)
        requires
            id <= 9,
        ensures
            input.id == id,
            input.wf(),
    {
        Self { id }
    }

    /// The frame that queries the channel.
    pub fn command(&self) -> (frame: Vec<u8>)
        requires
            self.wf(),
        ensures
            frame@ == frame_of(TYPE_INPUT, self.id, Seq::empty()),
    {
        let body: [u8; 0] = [];
        let frame = build_frame(TYPE_INPUT, self.id, body.as_slice());
        assert(body@ =~= Seq::empty());
        frame
    }

    /// The state that a reply reports: on exactly when the number it
    /// carries is one.
    pub fn get_state(&self, reply: &[u8]) -> (result: Result<bool, Error>)
        requires
            reply@.len() > RESULT_IDX,
        ensures
            result is Err <==> is_rejected(reply@),
            match result {
                Ok(on) => on == (reply_value(reply@) == 1),
                Err(e) => e.kind == ErrorKind::ControllerRejected && (is_ascii_bytes(reply@)
                    ==> e.message@ == text_of(reply@)),
            },
    {
        match reply_number(reply) {
            Err(e) => Err(e),
            Ok(value) => Ok(value == 1),
        }
    }
}

/// An analog input channel.
#[derive(Clone, Copy, Debug)]
pub struct AnalogInput {
    pub id: u8,
}

impl AnalogInput {
    /// Whether the channel id is a single digit.
    pub open spec fn wf(&self) -> bool {
        self.id <= 9
    }

    /// The input channel `id`.
    pub fn new(id: u8) -> (input: Self)
        requires
            id <= 9,
        ensures
            input.id == id,
            input.wf(),
    {
        Self { id }
    }

    /// The frame that queries the channel.
    pub fn command(&self) -> (frame: Vec<u8>)
        requires
            self.wf(),
        ensures
            frame@ == frame_of(TYPE_INPUT, self.id, Seq::empty()),
    {
        let body: [u8; 0] = [];
        let frame = build_frame(TYPE_INPUT, self.id, body.as_slice());
        assert(body@ =~= Seq::empty());
        frame
    }

    /// The raw reading that a reply reports.
    pub fn get_state(&self, reply: &[u8]) -> (result: Result<i64, Error>)
        requires
            reply@.len() > RESULT_IDX,
        ensures
            result is Err <==> is_rejected(reply@),
            match result {
                Ok(value) => value == reply_value(reply@),
                Err(e) => e.kind == ErrorKind::ControllerRejected && (is_ascii_bytes(reply@)
                    ==> e.message@ == text_of(reply@)),
            },
    {
        reply_number(reply)
    }
}

/// Level that switches a digital output on: the largest positive one.
pub const OUTPUT_ON_LEVEL: i64 = 32700;

/// The level that goes on the wire for a state of a digital output.
pub open spec fn output_level(state: bool) -> int {
    if state {
        OUTPUT_ON_LEVEL as int
    } else {
        0
    }
}

/// The frame bodies of the two states of a digital output, byte by byte:
/// the text 32700 for on and the text 0 for off.
pub proof fn lemma_output_bodies()
    ensures
        encode_signed(output_level(true)) == seq![51u8, 50u8, 55u8, 48u8, 48u8],
        encode_signed(output_level(false)) == seq![48u8],
{
    reveal_with_fuel(crate::codec::digits_of, 6);
    assert(encode_signed(output_level(true)) =~= seq![51u8, 50u8, 55u8, 48u8, 48u8]);
    assert(encode_signed(output_level(false)) =~= seq![48u8]);
}

/// A digital output channel.
#[derive(Clone, Copy, Debug)]
pub struct DigitalOutput {
    pub id: u8,
}

impl DigitalOutput {
    /// Whether the channel id is a single digit.
    pub open spec fn wf(&self) -> bool {
        self.id <= 9
    }

    /// The output channel `id`.
    pub fn new(id: u8) -> (output: Self)
        requires
            id <= 9,
        ensures
            output.id == id,
            output.wf(),
    {
        Self { id }
    }

    /// The frame that switches the output to `state`.
    pub fn command_builder(&self, state: bool) -> (frame: Vec<u8>)
        requires
            self.wf(),
        ensures
            frame@ == frame_of(TYPE_OUTPUT, self.id, encode_signed(output_level(state))),
    {
        let level: i64 = if state { OUTPUT_ON_LEVEL } else { 0 };
        let body = num_to_bytes(level);
        build_frame(TYPE_OUTPUT, self.id, body.as_slice())
    }

    /// Whether the controller accepted a switch of the output.
    pub fn set_state(&self, reply: &[u8]) -> (result: Result<(), Error>)
        requires
            reply@.len() > RESULT_IDX,
        ensures
            result is Err <==> is_rejected(reply@),
            match result {
                Ok(_) => true,
                Err(e) => e.kind == ErrorKind::ControllerRejected && (is_ascii_bytes(reply@)
                    ==> e.message@ == text_of(reply@)),
            },
    {
        check_reply(reply)
    }
}

/// Drive direction of an H-bridge.
#[derive(Clone, Copy, Debug, PartialEq, Eq, Structural)]
pub enum HBridgeState {
    Pos,
    Neg,
    Off,
}

/// An H-bridge output with the power level it is driven at.
#[derive(Clone, Copy, Debug)]
pub struct HBridge {
    pub id: u8,
    pub power: i16,
}

impl HBridge {
    /// Whether the id is a single digit and the power within the limit in
    /// both directions.
    pub open spec fn wf(&self) -> bool {
        self.id <= 9 && -CLEAR_CORE_H_BRIDGE_MAX <= self.power <= CLEAR_CORE_H_BRIDGE_MAX
    }

    /// The level that goes on the wire for `state`: the power, its opposite,
    /// or zero.
    pub open spec fn level(&self, state: HBridgeState) -> int {
        match state {
            HBridgeState::Pos => self.power as int,
            HBridgeState::Neg => -(self.power as int),
            HBridgeState::Off => 0,
        }
    }

    /// The H-bridge `id` driven at `power`.
    pub fn new(id: u8, power: i16) -> (bridge: Self)
        requires
            id <= 9,
            -CLEAR_CORE_H_BRIDGE_MAX <= power <= CLEAR_CORE_H_BRIDGE_MAX,
        ensures
            bridge.id == id,
            bridge.power == power,
            bridge.wf(),
    {
        Self { id, power }
    }

    /// The frame that drives the bridge in `state`.
    pub fn command_builder(&self, state: HBridgeState) -> (frame: Vec<u8>)
        requires
            self.wf(),
        ensures
            frame@ == frame_of(TYPE_OUTPUT, self.id, encode_signed(self.level(state))),
    {
        let level: i64 = match state {
            HBridgeState::Pos => self.power as i64,
            HBridgeState::Neg => -(self.power as i64),
            HBridgeState::Off => 0,
        };
        let body = num_to_bytes(level);
        build_frame(TYPE_OUTPUT, self.id, body.as_slice())
    }

    /// Whether the controller accepted a change of the drive.
    pub fn set_state(&self, reply: &[u8]) -> (result: Result<(), Error>)
        requires
            reply@.len() > RESULT_IDX,
        ensures
            result is Err <==> is_rejected(reply@),
            match result {
                Ok(_) => true,
                Err(e) => e.kind == ErrorKind::ControllerRejected && (is_ascii_bytes(reply@)
                    ==> e.message@ == text_of(reply@)),
            },
    {
        check_reply(reply)
    }
}

} // verus!
