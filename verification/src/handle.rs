//! The set of sub-devices that one motion controller offers.

use vstd::prelude::*;
use vstd::slice::slice_to_vec;
use crate::controller::MotorBuilder;
use crate::io::{AnalogInput, DigitalInput, DigitalOutput, HBridge};
use crate::motor::ClearCoreMotor;

verus! {

/// Number of motor axes.
pub const NO_MOTORS: usize = 4;

/// Number of digital inputs; their ids start at zero.
pub const NO_DIGITAL_INPUTS: usize = 3;

/// Number of analog inputs; their ids follow those of the digital inputs.
pub const NO_ANALOG_INPUTS: usize = 4;

/// Number of digital outputs; their ids start at zero.
pub const NO_OUTPUTS: usize = 6;

/// Number of H-bridges; their ids are 4 and 5.
pub const NO_HBRIDGE: usize = 2;

/// Id of the first H-bridge.
pub const FIRST_HBRIDGE: usize = 4;

/// Power of the H-bridges of a controller.
pub const HBRIDGE_POWER: i16 = 32700;

/// Handles of every sub-device of one controller.
#[derive(Debug)]
pub struct ControllerHandle {
    pub motors: Vec<ClearCoreMotor>,
    pub digital_inputs: Vec<DigitalInput>,
    pub analog_inputs: Vec<AnalogInput>,
    pub outputs: Vec<DigitalOutput>,
    pub h_bridges: [HBridge; 2],
}

impl ControllerHandle {
    /// Whether the handle holds the sub-devices of a controller, each under
    /// its id.
    pub open spec fn wf(&self) -> bool {
        &&& self.motors@.len() == NO_MOTORS
        &&& forall|i: int| 0 <= i < NO_MOTORS ==> (#[trigger] self.motors@[i]).wf()
        &&& self.digital_inputs@.len() == NO_DIGITAL_INPUTS
        &&& forall|i: int|
            0 <= i < NO_DIGITAL_INPUTS ==> (#[trigger] self.digital_inputs@[i]).id == i
        &&& self.analog_inputs@.len() == NO_ANALOG_INPUTS
        &&& forall|i: int|
            0 <= i < NO_ANALOG_INPUTS ==> (#[trigger] self.analog_inputs@[i]).id == i + 3
        &&& self.outputs@.len() == NO_OUTPUTS
        &&& forall|i: int| 0 <= i < NO_OUTPUTS ==> (#[trigger] self.outputs@[i]).id == i
        &&& self.h_bridges@[0] == (HBridge { id: 4, power: HBRIDGE_POWER })
        &&& self.h_bridges@[1] == (HBridge { id: 5, power: HBRIDGE_POWER })
    }

    /// The handles of a controller whose motor axes are described by
    /// `motors`.
    pub fn new(motors: [MotorBuilder; 4]) -> (handle: Self)
        requires
            forall|i: int| 0 <= i < 4 ==> (#[trigger] motors@[i]).id <= 9 && motors@[i].scale > 0,
        ensures
            handle.wf(),
            forall|i: int|
                0 <= i < 4 ==> (#[trigger] handle.motors@[i]).id == motors@[i].id
                    && handle.motors@[i].scale == motors@[i].scale,
    {
        let mut axes: Vec<ClearCoreMotor> = Vec::new();
        let mut i: usize = 0;
        while i < NO_MOTORS
            invariant
                i <= NO_MOTORS,
                axes@.len() == i,
                forall|k: int| 0 <= k < 4 ==> (#[trigger] motors@[k]).id <= 9 && motors@[k].scale > 0,
                forall|k: int|
                    0 <= k < i ==> (#[trigger] axes@[k]).wf() && axes@[k].id == motors@[k].id
                        && axes@[k].scale == motors@[k].scale,
            decreases NO_MOTORS - i,
        {
            let builder = motors[i];
            axes.push(ClearCoreMotor::new(builder.id, builder.scale));
            i = i + 1;
        }
        let mut digital_inputs: Vec<DigitalInput> = Vec::new();
        let mut d: u8 = 0;
        while d < 3
            invariant
                d <= 3,
                digital_inputs@.len() == d,
                forall|k: int| 0 <= k < d ==> (#[trigger] digital_inputs@[k]).id == k,
            decreases 3 - d,
        {
            digital_inputs.push(DigitalInput::new(d));
            d = d + 1;
        }
        let mut analog_inputs: Vec<AnalogInput> = Vec::new();
        let mut a: u8 = 0;
        while a < 4
            invariant
                a <= 4,
                analog_inputs@.len() == a,
                forall|k: int| 0 <= k < a ==> (#[trigger] analog_inputs@[k]).id == k + 3,
            decreases 4 - a,
        {
            analog_inputs.push(AnalogInput::new(a + 3));
            a = a + 1;
        }
        let mut outputs: Vec<DigitalOutput> = Vec::new();
        let mut o: u8 = 0;
        while o < 6
            invariant
                o <= 6,
                outputs@.len() == o,
                forall|k: int| 0 <= k < o ==> (#[trigger] outputs@[k]).id == k,
            decreases 6 - o,
        {
            outputs.push(DigitalOutput::new(o));
            o = o + 1;
        }
        let h_bridges = [HBridge::new(4, HBRIDGE_POWER), HBridge::new(5, HBRIDGE_POWER)];
        Self { motors: axes, digital_inputs, analog_inputs, outputs, h_bridges }
    }

    /// The motor in place `id`.
    pub fn get_motor(&self, id: usize) -> (motor: ClearCoreMotor)
        requires
            self.wf(),
            id < NO_MOTORS,
        ensures
            motor == self.motors@[id as int],
            motor.wf(),
    {
        self.motors[id]
    }

    /// All motors.
    pub fn get_motors(&self) -> (motors: Vec<ClearCoreMotor>)
        ensures
            motors@ == self.motors@,
    {
        slice_to_vec(self.motors.as_slice())
    }

    /// The digital input `id`.
    pub fn get_digital_input(&self, id: usize) -> (input: DigitalInput)
        requires
            self.wf(),
            id < NO_DIGITAL_INPUTS,
        ensures
            input == self.digital_inputs@[id as int],
            input.id == id,
    {
        self.digital_inputs[id]
    }

    /// All digital inputs.
    pub fn get_digital_inputs(&self) -> (inputs: Vec<DigitalInput>)
        ensures
            inputs@ == self.digital_inputs@,
    {
        slice_to_vec(self.digital_inputs.as_slice())
    }

    /// The analog input in place `id`, whose id on the wire is `id + 3`.
    pub fn get_analog_input(&self, id: usize) -> (input: AnalogInput)
        requires
            self.wf(),
            id < NO_ANALOG_INPUTS,
        ensures
            input == self.analog_inputs@[id as int],
            input.id == id + 3,
    {
        self.analog_inputs[id]
    }

    /// All analog inputs.
    pub fn get_analog_inputs(&self) -> (inputs: Vec<AnalogInput>)
        ensures
            inputs@ == self.analog_inputs@,
    {
        slice_to_vec(self.analog_inputs.as_slice())
    }

    /// The digital output `id`.
    pub fn get_output(&self, id: usize) -> (output: DigitalOutput)
        requires
            self.wf(),
            id < NO_OUTPUTS,
        ensures
            output == self.outputs@[id as int],
            output.id == id,
    {
        self.outputs[id]
    }

    /// All digital outputs.
    pub fn get_outputs(&self) -> (outputs: Vec<DigitalOutput>)
        ensures
            outputs@ == self.outputs@,
    {
        slice_to_vec(self.outputs.as_slice())
    }

    /// The H-bridge with the wire id `id`, which is 4 or 5.
    pub fn get_h_bridge(&self, id: usize) -> (bridge: HBridge)
        requires
            self.wf(),
            FIRST_HBRIDGE <= id < FIRST_HBRIDGE + NO_HBRIDGE,
        ensures
            bridge == self.h_bridges@[id - FIRST_HBRIDGE],
            bridge.id == id,
            bridge.power == HBRIDGE_POWER,
    {
        let idx = id - FIRST_HBRIDGE;
        self.h_bridges[idx]
    }

    /// Both H-bridges.
    pub fn get_h_bridges(&self) -> (bridges: [HBridge; 2])
        ensures
            bridges == self.h_bridges,
    {
        self.h_bridges
    }
}

} // verus!
