//! Bag sensing: what the photo eye reports and when a bag counts as lost.

use vstd::prelude::*;
use crate::controller::{describes, is_rejected, Error, ErrorKind, RESULT_IDX};
use crate::io::{reply_value, DigitalInput};

verus! {

/// Time between two looks of the watcher at the photo eye, in
/// milliseconds.
pub const WATCH_PERIOD_MS: u64 = 50;

/// What the photo eye sees.
#[derive(Clone, Copy, Debug, PartialEq, Eq, Structural)]
pub enum BagSensorState {
    Bagless,
    Bagful,
}

/// A fault of the bag handling.
#[derive(Clone, Copy, Debug, PartialEq, Eq, Structural)]
pub enum BagError {
    LostBag,
}

/// The photo eye of the bag path, on a digital input.
#[derive(Clone, Copy, Debug)]
pub struct BagSensor {
    pub photo_eye: DigitalInput,
}

impl BagSensor {
    /// A sensor on the input `photo_eye`.
    pub fn new(photo_eye: DigitalInput) -> (sensor: Self)
        ensures
            sensor.photo_eye == photo_eye,
    {
        Self { photo_eye }
    }

    /// The state that the reply to a query of the photo eye reports: a
    /// raised input means that no bag is there.
    pub fn check(&self, reply: &[u8]) -> (result: Result<BagSensorState, Error>)
        requires
            reply@.len() > RESULT_IDX,
        ensures
            result is Err <==> is_rejected(reply@),
            match result {
                Ok(state) => state == if reply_value(reply@) == 1 {
                    BagSensorState::Bagless
                } else {
                    BagSensorState::Bagful
                },
                Err(e) => e.kind == ErrorKind::ControllerRejected && describes(e, reply@),
            },
    {
        match self.photo_eye.get_state(reply) {
            Err(e) => Err(e),
            Ok(true) => Ok(BagSensorState::Bagless),
            Ok(false) => Ok(BagSensorState::Bagful),
        }
    }

    /// Judges one report of the watcher: a missing bag is an error.
    pub fn listener(report: BagSensorState) -> (result: Result<(), BagError>)
        ensures
            result == if report == BagSensorState::Bagless {
                Err::<(), BagError>(BagError::LostBag)
            } else {
                Ok::<(), BagError>(())
            },
    {
        match report {
            BagSensorState::Bagful => Ok(()),
            BagSensorState::Bagless => Err(BagError::LostBag),
        }
    }
}

} // verus!
