//! A two-lamp signal light on two digital outputs.

use vstd::prelude::*;
use crate::io::DigitalOutput;

verus! {

/// Colors that the light can show.
#[derive(Clone, Copy, Debug, PartialEq, Eq, Structural)]
pub enum Color {
    Red,
    Green,
    Yellow,
}

/// The two lamps of the light.
#[derive(Clone, Copy, Debug, PartialEq, Eq, Structural)]
pub enum Lamp {
    Red,
    Green,
}

/// One lamp and the state it is to take.
#[derive(Clone, Copy, Debug, PartialEq, Eq, Structural)]
pub struct LampSwitch {
    pub lamp: Lamp,
    pub state: bool,
}

/// The switches that show `color`, in the order they are made: the lamp
/// that must be dark first, then the lamp that must be lit; both lit give
/// yellow.
pub open spec fn color_switches(color: Color) -> Seq<LampSwitch> {
    match color {
        Color::Red => seq![
            LampSwitch { lamp: Lamp::Green, state: false },
            LampSwitch { lamp: Lamp::Red, state: true },
        ],
        Color::Green => seq![
            LampSwitch { lamp: Lamp::Red, state: false },
            LampSwitch { lamp: Lamp::Green, state: true },
        ],
        Color::Yellow => seq![
            LampSwitch { lamp: Lamp::Green, state: true },
            LampSwitch { lamp: Lamp::Red, state: true },
        ],
    }
}

/// A signal light: the output of its red lamp and that of its green lamp.
#[derive(Clone, Copy, Debug)]
pub struct Led {
    pub red_output: DigitalOutput,
    pub green_output: DigitalOutput,
}

impl Led {
    /// A light on the two outputs.
    pub fn new(red_output: DigitalOutput, green_output: DigitalOutput) -> (led: Self)
        ensures
            led.red_output == red_output,
            led.green_output == green_output,
    {
        Self { red_output, green_output }
    }

    /// The output that drives `lamp`.
    pub fn output(&self, lamp: Lamp) -> (out: DigitalOutput)
        ensures
            out == match lamp {
                Lamp::Red => self.red_output,
                Lamp::Green => self.green_output,
            },
    {
        match lamp {
            Lamp::Red => self.red_output,
            Lamp::Green => self.green_output,
        }
    }

    /// The switches that show `color`, in order.
    pub fn turn_on(&self, color: Color) -> (switches: [LampSwitch; 2])
        ensures
            switches@ == color_switches(color),
    {
        let switches = match color {
            Color::Red => [
                LampSwitch { lamp: Lamp::Green, state: false },
                LampSwitch { lamp: Lamp::Red, state: true },
            ],
            Color::Green => [
                LampSwitch { lamp: Lamp::Red, state: false },
                LampSwitch { lamp: Lamp::Green, state: true },
            ],
            Color::Yellow => [
                LampSwitch { lamp: Lamp::Green, state: true },
                LampSwitch { lamp: Lamp::Red, state: true },
            ],
        };
        assert(switches@ =~= color_switches(color));
        switches
    }

    /// The switches that darken both lamps, red first.
    pub fn all_off(&self) -> (switches: [LampSwitch; 2])
        ensures
            switches@ == seq![
                LampSwitch { lamp: Lamp::Red, state: false },
                LampSwitch { lamp: Lamp::Green, state: false },
            ],
    {
        let switches = [
            LampSwitch { lamp: Lamp::Red, state: false },
            LampSwitch { lamp: Lamp::Green, state: false },
        ];
        assert(switches@ =~= seq![
            LampSwitch { lamp: Lamp::Red, state: false },
            LampSwitch { lamp: Lamp::Green, state: false },
        ]);
        switches
    }
}

} // verus!
