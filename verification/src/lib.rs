//! Device-control core of a robotic food-dispensing cell: the ASCII wire
//! protocol of the motion controllers, the bit-level EtherCAT image rules and
//! the decision logic of the closed-loop routines, all stated over plain
//! values so that a thin runtime layer can drive real hardware with them.

pub mod codec;
pub mod controller;
pub mod frame;
pub mod io;
pub mod motor;
pub mod ethercat;
pub mod actuator;
pub mod servo;
pub mod dispense;
pub mod gantry;
pub mod bag;
pub mod led;
pub mod handle;
pub mod scale;
pub mod client;
