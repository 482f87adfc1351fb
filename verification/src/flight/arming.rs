use vstd::prelude::*;

verus! {

/// Arming behaviour that the pilot configures.
#[derive(Clone, Copy, Debug, PartialEq, Eq, Structural)]
pub struct ArmingConfig {
    /// Calibrate the gyro right before the first arm.
    pub gyro_cal_on_first_arm: u8,
    /// Disarm automatically after this many seconds of zero throttle; 0 disables it.
    pub auto_disarm_delay: u8,
    pub prearm_allow_rearm: u8,
}

impl ArmingConfig {
    #[verifier::allow_in_spec]
    pub fn new() -> Self
        returns
            (Self { gyro_cal_on_first_arm: 0, auto_disarm_delay: 5, prearm_allow_rearm: 0 }),
    {
        Self { gyro_cal_on_first_arm: 0, auto_disarm_delay: 5, prearm_allow_rearm: 0 }
    }
}

impl Default for ArmingConfig {
    fn default() -> (r: Self)
        ensures
            r == Self::new(),
    {
        Self::new()
    }
}

/// The arming state, one bit per flag.
#[derive(Clone, Copy, Debug, PartialEq, Eq, Structural)]
pub struct ArmingFlags {
    pub flags: u8,
}

impl ArmingFlags {
    pub const ARMED: u8 = 0x01;
    pub const WAS_EVER_ARMED: u8 = 0x02;
    pub const WAS_ARMED_WITH_PREARM: u8 = 0x04;

    /// Whether any bit of `flag` is set in `flags`.
    pub open spec fn has(self, flag: u8) -> bool {
        self.flags & flag != 0
    }

    #[verifier::allow_in_spec]
    pub fn new() -> Self
        returns
            (Self { flags: 0 }),
    {
        Self { flags: 0 }
    }

    /// Sets the bits of `flag`; the other bits stay as they were.
    pub fn set(&mut self, flag: u8)
        ensures
            final(self).flags == old(self).flags | flag,
    {
        self.flags = self.flags | flag;
    }

    pub fn is_set(self, flag: u8) -> (r: bool)
        ensures
            r == self.has(flag),
    {
        self.flags & flag != 0
    }

    pub fn flags(self) -> (r: u8)
        ensures
            r == self.flags,
    {
        self.flags
    }
}

impl Default for ArmingFlags {
    fn default() -> (r: Self)
        ensures
            r == Self::new(),
    {
        Self::new()
    }
}

/// The reasons that arming is refused, one bit per reason.
#[derive(Clone, Copy, Debug, PartialEq, Eq, Structural)]
pub struct DisarmingFlags {
    pub flags: u32,
}

impl DisarmingFlags {
    pub const NO_GYRO: u32 = 0x00000001;
    pub const FAILSAFE: u32 = 0x00000002;
    pub const RX_FAILSAFE: u32 = 0x00000004;
    pub const NOT_DISARMED: u32 = 0x00000008;
    pub const BOX_FAILSAFE: u32 = 0x00000010;
    pub const RUNAWAY_TAKEOFF: u32 = 0x00000020;
    pub const CRASH_DETECTED: u32 = 0x00000040;
    pub const THROTTLE: u32 = 0x00000080;
    pub const ANGLE: u32 = 0x00000100;
    pub const BOOT_GRACE_TIME: u32 = 0x00000200;
    pub const NO_PREARM: u32 = 0x00000400;
    pub const LOAD: u32 = 0x00000800;
    pub const CALIBRATING: u32 = 0x00001000;
    pub const CLI: u32 = 0x00002000;
    pub const CMS_MENU: u32 = 0x00004000;
    pub const BST: u32 = 0x00008000;
    pub const MSP: u32 = 0x00010000;
    pub const PARALYZE: u32 = 0x00020000;
    pub const GPS: u32 = 0x00040000;
    pub const R_ESC: u32 = 0x00080000;
    pub const DSHOT_TELEMETRY: u32 = 0x00100000;
    pub const REBOOT_REQUIRED: u32 = 0x00200000;
    pub const DSHOT_BITBANG: u32 = 0x00400000;
    pub const ACC_CALIBRATION: u32 = 0x00800000;
    pub const MOTOR_PROTOCOL: u32 = 0x01000000;
    pub const CRASH_FLIP: u32 = 0x02000000;
    pub const ALT_HOLD: u32 = 0x04000000;
    pub const POS_HOLD: u32 = 0x08000000;
    /// Needs to be the last element, since it is always activated if one of the others is active when arming.
    pub const ARM_SWITCH: u32 = 0x10000000;

    /// Whether any bit of `flag` is set in `flags`.
    pub open spec fn has(self, flag: u32) -> bool {
        self.flags & flag != 0
    }

    #[verifier::allow_in_spec]
    pub fn new() -> Self
        returns
            (Self { flags: 0 }),
    {
        Self { flags: 0 }
    }

    /// Sets the bits of `flag`; the other bits stay as they were.
    pub fn set(&mut self, flag: u32)
        ensures
            final(self).flags == old(self).flags | flag,
    {
        self.flags = self.flags | flag;
    }

    pub fn is_set(self, flag: u32) -> (r: bool)
        ensures
            r == self.has(flag),
    {
        self.flags & flag != 0
    }

    pub fn flags(self) -> (r: u32)
        ensures
            r == self.flags,
    {
        self.flags
    }
}

impl Default for DisarmingFlags {
    fn default() -> (r: Self)
        ensures
            r == Self::new(),
    {
        Self::new()
    }
}

/// Setting a non-zero flag makes it read as set, and every flag that read as set before
/// still reads as set.
pub proof fn lemma_arming_flags_set_is_set(before: ArmingFlags, after: ArmingFlags, flag: u8, other: u8)
    requires
        after.flags == before.flags | flag,
    ensures
        flag != 0 ==> after.has(flag),
        before.has(other) ==> after.has(other),
{
    let x = before.flags;
    assert(flag != 0 ==> (x | flag) & flag != 0) by (bit_vector);
    assert(x & other != 0 ==> (x | flag) & other != 0) by (bit_vector);
}

/// Setting a flag a second time changes nothing.
pub proof fn lemma_arming_flags_set_idempotent(flags: u8, flag: u8)
    ensures
        (flags | flag) | flag == flags | flag,
{
    assert((flags | flag) | flag == flags | flag) by (bit_vector);
}

/// A fresh set of flags has no flag set.
pub proof fn lemma_arming_flags_new_is_clear(flag: u8)
    ensures
        !ArmingFlags::new().has(flag),
{
    assert(0u8 & flag == 0) by (bit_vector);
}

/// Setting a non-zero flag makes it read as set, and every flag that read as set before
/// still reads as set.
pub proof fn lemma_disarming_flags_set_is_set(before: DisarmingFlags, after: DisarmingFlags, flag: u32, other: u32)
    requires
        after.flags == before.flags | flag,
    ensures
        flag != 0 ==> after.has(flag),
        before.has(other) ==> after.has(other),
{
    let x = before.flags;
    assert(flag != 0 ==> (x | flag) & flag != 0) by (bit_vector);
    assert(x & other != 0 ==> (x | flag) & other != 0) by (bit_vector);
}

/// Setting a flag a second time changes nothing.
pub proof fn lemma_disarming_flags_set_idempotent(flags: u32, flag: u32)
    ensures
        (flags | flag) | flag == flags | flag,
{
    assert((flags | flag) | flag == flags | flag) by (bit_vector);
}

/// A fresh set of flags has no flag set.
pub proof fn lemma_disarming_flags_new_is_clear(flag: u32)
    ensures
        !DisarmingFlags::new().has(flag),
{
    assert(0u32 & flag == 0) by (bit_vector);
}

} // verus!
