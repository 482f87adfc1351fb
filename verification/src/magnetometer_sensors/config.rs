use vstd::prelude::*;
use crate::magnetometer_sensors::magnetometer::MagnetometerType;

verus! {

/// Trims of the three axes and whether their calibration completed.
#[derive(Clone, Copy, Debug, PartialEq, Eq, Structural)]
pub struct FlightDynamicsTrims {
    pub roll: u16,
    pub pitch: u16,
    pub yaw: u16,
    pub calibration_completed: u16,
}

impl FlightDynamicsTrims {
    #[verifier::allow_in_spec]
    pub fn new() -> Self
        returns
            (Self { roll: 0, pitch: 0, yaw: 0, calibration_completed: 0 }),
    {
        Self { roll: 0, pitch: 0, yaw: 0, calibration_completed: 0 }
    }
}

impl Default for FlightDynamicsTrims {
    fn default() -> (r: Self)
        ensures
            r == Self::new(),
    {
        Self::new()
    }
}

/// Magnetometer settings.
#[derive(Clone, Copy, Debug, PartialEq, Eq, Structural)]
pub struct MagnetometerConfig {
    /// Magnetic alignment.
    pub alignment: u8,
    pub hardware: MagnetometerType,
    pub i2c_address: u8,
    pub zero: FlightDynamicsTrims,
}

impl MagnetometerConfig {
    #[verifier::allow_in_spec]
    pub fn new() -> Self
        returns
            (Self {
                alignment: 0,
                hardware: MagnetometerType::NoMagnetometer,
                i2c_address: 0,
                zero: FlightDynamicsTrims::new(),
            }),
    {
        Self {
            alignment: 0,
            hardware: MagnetometerType::NoMagnetometer,
            i2c_address: 0,
            zero: FlightDynamicsTrims::new(),
        }
    }
}

impl Default for MagnetometerConfig {
    fn default() -> (r: Self)
        ensures
            r == Self::new(),
    {
        Self::new()
    }
}

} // verus!
