use vstd::prelude::*;

verus! {

/// Cutoff and centre frequencies (Hz) of the filters applied to the IMU readings before
/// sensor fusion; 0 switches a filter off.
#[derive(Clone, Copy, Debug, PartialEq, Eq, Structural)]
pub struct ImuFilterBankConfig {
    pub acc_lpf_hz: u16,
    pub gyro_lpf1_hz: u16,
    pub gyro_lpf2_hz: u16,
    pub gyro_notch1_hz: u16,
    pub gyro_notch1_cutoff: u16,
    pub gyro_notch2_hz: u16,
    pub gyro_notch2_cutoff: u16,
}

impl ImuFilterBankConfig {
    /// Accelerometer low-pass at 100 Hz, the first gyro low-pass off, the gyro anti-alias
    /// low-pass at 250 Hz, both gyro notches off.
    #[verifier::allow_in_spec]
    pub fn new() -> Self
        returns
            (Self {
                acc_lpf_hz: 100,
                gyro_lpf1_hz: 0,
                gyro_lpf2_hz: 250,
                gyro_notch1_hz: 0,
                gyro_notch1_cutoff: 0,
                gyro_notch2_hz: 0,
                gyro_notch2_cutoff: 0,
            }),
    {
        Self {
            acc_lpf_hz: 100,
            gyro_lpf1_hz: 0,
            gyro_lpf2_hz: 250,
            gyro_notch1_hz: 0,
            gyro_notch1_cutoff: 0,
            gyro_notch2_hz: 0,
            gyro_notch2_cutoff: 0,
        }
    }
}

impl Default for ImuFilterBankConfig {
    fn default() -> (r: Self)
        ensures
            r == Self::new(),
    {
        Self::new()
    }
}

} // verus!
