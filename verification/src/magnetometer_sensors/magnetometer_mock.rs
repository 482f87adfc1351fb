use vstd::prelude::*;
use crate::magnetometer_sensors::magnetometer::{MagnetometerMessage, RxMagnetometer};

verus! {

/// A magnetometer that reports default readings.
#[derive(Clone, Copy, Debug, PartialEq, Eq, Structural)]
pub struct MagnetometerMock {

}

impl MagnetometerMock {
    #[verifier::allow_in_spec]
    pub fn new() -> Self
        returns
            (Self {}),
    {
        Self {}
    }
}

impl Default for MagnetometerMock {
    fn default() -> (r: Self)
        ensures
            r == Self::new(),
    {
        Self::new()
    }
}

impl RxMagnetometer for MagnetometerMock {
    fn message(&self) -> (r: MagnetometerMessage)
        ensures
            r == MagnetometerMessage::new(),
    {
        MagnetometerMessage::default()
    }
}

} // verus!
