use vstd::prelude::*;
use crate::magnetometer_sensors::magnetometer::{MagnetometerMessage, RxMagnetometer};

verus! {

pub const REG_CONFA: u8 = 0x00;
pub const REG_CONFB: u8 = 0x01;
pub const REG_MODE: u8 = 0x02;
pub const REG_DATA: u8 = 0x03;
pub const REG_IDA: u8 = 0x0A;

/// The HMC5883 magnetometer; it reports default readings.
#[derive(Clone, Copy, Debug, PartialEq, Eq, Structural)]
pub struct MagnetometerHmc5883 {

}

impl MagnetometerHmc5883 {
    pub const I2C_ADDRESS: u8 = 0x1E;
    pub const CHIP_ID: u8 = 0x48;

    #[verifier::allow_in_spec]
    pub fn new() -> Self
        returns
            (Self {}),
    {
        Self {}
    }
}

impl Default for MagnetometerHmc5883 {
    fn default() -> (r: Self)
        ensures
            r == Self::new(),
    {
        Self::new()
    }
}

impl RxMagnetometer for MagnetometerHmc5883 {
    fn message(&self) -> (r: MagnetometerMessage)
        ensures
            r == MagnetometerMessage::new(),
    {
        MagnetometerMessage::default()
    }
}

} // verus!
