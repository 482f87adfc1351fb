use vstd::prelude::*;

verus! {

/// The enabled features, one bit per feature.
#[derive(Clone, Copy, Debug, PartialEq, Eq, Structural)]
pub struct FeatureConfig {
    pub features: u32,
}

impl FeatureConfig {
    pub const RX_PPM: u32 = 0x00000001;
    pub const INFLIGHT_ACC_CAL: u32 = 0x00000004;
    pub const RX_SERIAL: u32 = 0x00000008;
    pub const MOTOR_STOP: u32 = 0x00000010;
    pub const SERVO_TILT: u32 = 0x00000020;
    pub const SOFTSERIAL: u32 = 0x00000040;
    pub const GPS: u32 = 0x00000080;
    pub const OPTICAL_FLOW: u32 = 0x00000100;
    pub const RANGEFINDER: u32 = 0x00000200;
    pub const TELEMETRY: u32 = 0x00000400;
    pub const THREE_D: u32 = 0x00001000;
    pub const RX_PARALLEL_PWM: u32 = 0x00002000;
    pub const RX_MSP: u32 = 0x00004000;
    pub const RSSI_ADC: u32 = 0x00008000;
    pub const LED_STRIP: u32 = 0x00010000;
    pub const DASHBOARD: u32 = 0x00020000;
    pub const OSD: u32 = 0x00040000;
    pub const CHANNEL_FORWARDING: u32 = 0x00100000;
    pub const TRANSPONDER: u32 = 0x00200000;
    pub const AIRMODE: u32 = 0x00400000;
    pub const RX_SPI: u32 = 0x02000000;
    pub const ESC_SENSOR: u32 = 0x08000000;
    pub const ANTI_GRAVITY: u32 = 0x10000000;

    /// Whether any bit of `flag` is set in `features`.
    pub open spec fn has(self, flag: u32) -> bool {
        self.features & flag != 0
    }

    /// Serial receiver, air mode and anti-gravity enabled.
    #[verifier::allow_in_spec]
    pub fn new() -> Self
        returns
            (Self { features: Self::RX_SERIAL | Self::AIRMODE | Self::ANTI_GRAVITY }),
    {
        Self { features: Self::RX_SERIAL | Self::AIRMODE | Self::ANTI_GRAVITY }
    }

    /// Sets the bits of `flag`; the other bits stay as they were.
    pub fn set(&mut self, flag: u32)
        ensures
            final(self).features == old(self).features | flag,
    {
        self.features = self.features | flag;
    }

    pub fn is_set(self, flag: u32) -> (r: bool)
        ensures
            r == self.has(flag),
    {
        self.features & flag != 0
    }

    pub fn features(self) -> (r: u32)
        ensures
            r == self.features,
    {
        self.features
    }
}

impl Default for FeatureConfig {
    fn default() -> (r: Self)
        ensures
            r == Self::new(),
    {
        Self::new()
    }
}

/// Setting a non-zero flag makes it read as set, and every flag that read as set before
/// still reads as set.
pub proof fn lemma_feature_config_set_is_set(before: FeatureConfig, after: FeatureConfig, flag: u32, other: u32)
    requires
        after.features == before.features | flag,
    ensures
        flag != 0 ==> after.has(flag),
        before.has(other) ==> after.has(other),
{
    let x = before.features;
    assert(flag != 0 ==> (x | flag) & flag != 0) by (bit_vector);
    assert(x & other != 0 ==> (x | flag) & other != 0) by (bit_vector);
}

/// Setting a flag a second time changes nothing.
pub proof fn lemma_feature_config_set_idempotent(flags: u32, flag: u32)
    ensures
        (flags | flag) | flag == flags | flag,
{
    assert((flags | flag) | flag == flags | flag) by (bit_vector);
}


} // verus!
