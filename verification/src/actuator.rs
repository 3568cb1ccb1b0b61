//! Linear actuators: a native H-bridge output, or a pair of relays, each
//! with analog feedback.

use vstd::prelude::*;
use crate::controller::{describes, is_rejected, Error, ErrorKind, RESULT_IDX};
use crate::codec::encode_signed;
use crate::ethercat::{Command, IoMsg};
use crate::frame::{frame_of, TYPE_INPUT, TYPE_OUTPUT};
use crate::io::{
    output_level,
    reply_value,
    AnalogInput,
    DigitalOutput,
    HBridge,
    HBridgeState,
};

verus! {

/// The two relays of a relay pair: channel A drives forward, channel B in
/// reverse.
#[derive(Clone, Copy, Debug, PartialEq, Eq, Structural)]
pub enum ActuatorCh {
    Cha,
    Chb,
}

/// A switched output, on an EtherCAT card or on a motion controller.
#[derive(Clone, Copy, Debug)]
pub enum Output {
    /// A bit of the output byte of a card: the slot of the card, then the
    /// index of the bit.
    EtherCat(usize, u8),
    /// A digital output of a motion controller.
    ClearCore(DigitalOutput),
}

/// What has to be sent to switch an output.
#[derive(Debug)]
pub enum OutputOrder {
    /// A request to the EtherCAT master.
    EtherCat(IoMsg),
    /// A frame for the motion controller.
    ClearCore(Vec<u8>),
}

impl Output {
    /// Whether a controller output has a single-digit id.
    pub open spec fn wf(&self) -> bool {
        match self {
            Output::EtherCat(_, _) => true,
            Output::ClearCore(out) => out.wf(),
        }
    }

    /// Whether `order` switches this output to `state`.
    pub open spec fn switched_by(&self, order: OutputOrder, state: bool) -> bool {
        match (*self, order) {
            (Output::EtherCat(slot, idx), OutputOrder::EtherCat(msg)) => msg == (IoMsg {
                slot,
                idx,
                cmd: Command::SetState(state),
            }),
            (Output::ClearCore(out), OutputOrder::ClearCore(frame)) => frame@ == frame_of(
                TYPE_OUTPUT,
                out.id,
                encode_signed(output_level(state)),
            ),
            _ => false,
        }
    }

    /// The order that switches the output to `state`.
    pub fn set_state(&self, state: bool) -> (order: OutputOrder)
        requires
            self.wf(),
        ensures
            self.switched_by(order, state),
    {
        match self {
            Output::EtherCat(slot, idx) => OutputOrder::EtherCat(
                IoMsg { slot: *slot, idx: *idx, cmd: Command::SetState(state) },
            ),
            Output::ClearCore(out) => OutputOrder::ClearCore(out.command_builder(state)),
        }
    }
}

/// One relay and the state it is to take.
#[derive(Clone, Copy, Debug, PartialEq, Eq, Structural)]
pub struct RelaySwitch {
    pub channel: ActuatorCh,
    pub state: bool,
}

/// The relay switches of a drive, in the order they are made: forward on,
/// reverse on, or both off with the forward relay first.
pub open spec fn relay_switches(power: HBridgeState) -> Seq<RelaySwitch> {
    match power {
        HBridgeState::Pos => seq![RelaySwitch { channel: ActuatorCh::Cha, state: true }],
        HBridgeState::Neg => seq![RelaySwitch { channel: ActuatorCh::Chb, state: true }],
        HBridgeState::Off => seq![
            RelaySwitch { channel: ActuatorCh::Cha, state: false },
            RelaySwitch { channel: ActuatorCh::Chb, state: false },
        ],
    }
}

/// Half the sum of two readings, rounded toward zero.
pub open spec fn average(a: int, b: int) -> int {
    if a + b >= 0 {
        (a + b) / 2
    } else {
        -((-(a + b)) / 2)
    }
}

/// The position that one or two feedback readings give.
pub open spec fn feedback_position(first: int, second: Option<i64>) -> int {
    match second {
        Some(other) => average(first, other as int),
        None => first,
    }
}

/// An H-bridge made of a forward and a reverse relay, with one or two
/// analog feedbacks.
#[derive(Clone, Copy, Debug)]
pub struct RelayHBridge {
    pub fb_pair: (AnalogInput, Option<AnalogInput>),
    pub output_pair: (Output, Output),
}

impl RelayHBridge {
    /// A relay pair with a single feedback.
    pub fn new(outputs: (Output, Output), feedback: AnalogInput) -> (bridge: Self)
        ensures
            bridge.output_pair == outputs,
            bridge.fb_pair == (feedback, None::<AnalogInput>),
    {
        Self { fb_pair: (feedback, None), output_pair: outputs }
    }

    /// A relay pair with two feedbacks.
    pub fn with_dual_fb(outputs: (Output, Output), feedback: (AnalogInput, AnalogInput)) -> (bridge:
        Self)
        ensures
            bridge.output_pair == outputs,
            bridge.fb_pair == (feedback.0, Some(feedback.1)),
    {
        Self { fb_pair: (feedback.0, Some(feedback.1)), output_pair: outputs }
    }

    /// The output behind a relay channel.
    pub fn output(&self, channel: ActuatorCh) -> (out: Output)
        ensures
            out == match channel {
                ActuatorCh::Cha => self.output_pair.0,
                ActuatorCh::Chb => self.output_pair.1,
            },
    {
        match channel {
            ActuatorCh::Cha => self.output_pair.0,
            ActuatorCh::Chb => self.output_pair.1,
        }
    }

    /// The position from the readings of the feedbacks: the first reading,
    /// or with a second one their average.
    pub fn get_feedback(&self, first: i64, second: Option<i64>) -> (position: i64)
        ensures
            position == feedback_position(first as int, second),
    {
        match second {
            None => first,
            Some(other) => {
                let sum: i128 = first as i128 + other as i128;
                if sum >= 0 {
                    let half: u128 = (sum as u128) / 2;
                    half as i64
                } else {
                    let half: u128 = ((-sum) as u128) / 2;
                    let below: i128 = -(half as i128);
                    below as i64
                }
            },
        }
    }

    /// The relay switches that drive the actuator in direction `power`. A
    /// drive in one direction leaves the opposite relay as it is.
    pub fn actuate(&self, power: HBridgeState) -> (switches: Vec<RelaySwitch>)
        ensures
            switches@ == relay_switches(power),
    {
        let mut switches: Vec<RelaySwitch> = Vec::new();
        match power {
            HBridgeState::Pos => {
                switches.push(RelaySwitch { channel: ActuatorCh::Cha, state: true });
            },
            HBridgeState::Neg => {
                switches.push(RelaySwitch { channel: ActuatorCh::Chb, state: true });
            },
            HBridgeState::Off => {
                switches.push(RelaySwitch { channel: ActuatorCh::Cha, state: false });
                switches.push(RelaySwitch { channel: ActuatorCh::Chb, state: false });
            },
        }
        assert(switches@ =~= relay_switches(power));
        switches
    }
}

/// An actuator on a native H-bridge output, with an optional feedback.
#[derive(Clone, Copy, Debug)]
pub struct SimpleLinearActuator {
    pub output: HBridge,
    pub feedback: Option<AnalogInput>,
}

impl SimpleLinearActuator {
    /// Whether the output and the feedback are well formed.
    pub open spec fn wf(&self) -> bool {
        self.output.wf() && match self.feedback {
            Some(fb) => fb.wf(),
            None => true,
        }
    }

    /// An actuator without feedback.
    pub fn new(output: HBridge) -> (actuator: Self)
        ensures
            actuator.output == output,
            actuator.feedback is None,
    {
        Self { output, feedback: None }
    }

    /// An actuator with feedback.
    pub fn with_feedback(output: HBridge, feedback: AnalogInput) -> (actuator: Self)
        ensures
            actuator.output == output,
            actuator.feedback == Some(feedback),
    {
        Self { output, feedback: Some(feedback) }
    }

    /// The frame that queries the feedback, if there is one.
    pub fn feedback_query(&self) -> (frame: Option<Vec<u8>>)
        requires
            self.wf(),
        ensures
            match (self.feedback, frame) {
                (Some(fb), Some(f)) => f@ == frame_of(TYPE_INPUT, fb.id, Seq::empty()),
                (None, None) => true,
                _ => false,
            },
    {
        match &self.feedback {
            Some(fb) => Some(fb.command()),
            None => None,
        }
    }

    /// The position that the reply to the feedback query reports; nothing
    /// for an actuator without feedback, whose reply is not looked at.
    pub fn get_feedback(&self, reply: &[u8]) -> (result: Result<Option<i64>, Error>)
        requires
            reply@.len() > RESULT_IDX,
        ensures
            result is Err <==> self.feedback is Some && is_rejected(reply@),
            match result {
                Ok(position) => position == if self.feedback is Some {
                    Some(reply_value(reply@) as i64)
                } else {
                    None
                },
                Err(e) => e.kind == ErrorKind::ControllerRejected && describes(e, reply@),
            },
    {
        match &self.feedback {
            Some(fb) => match fb.get_state(reply) {
                Ok(value) => Ok(Some(value)),
                Err(e) => Err(e),
            },
            None => Ok(None),
        }
    }

    /// The frame that drives the actuator in direction `state`.
    pub fn actuate(&self, state: HBridgeState) -> (frame: Vec<u8>)
        requires
            self.wf(),
        ensures
            frame@ == frame_of(TYPE_OUTPUT, self.output.id, encode_signed(self.output.level(state))),
    {
        self.output.command_builder(state)
    }
}

} // verus!
