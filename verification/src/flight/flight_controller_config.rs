use vstd::prelude::*;

verus! {

/// PID gains of one axis.
#[derive(Clone, Copy, Debug, PartialEq, Eq, Structural)]
pub struct PidConfig {
    /// Proportional gain.
    pub kp: u8,
    /// Integral gain.
    pub ki: u8,
    /// Derivative gain.
    pub kd: u8,
    /// Setpoint gain.
    pub ks: u8,
    /// Setpoint derivative gain (kick).
    pub kk: u8,
}

impl PidConfig {
    #[verifier::allow_in_spec]
    pub fn new() -> Self
        returns
            (Self { kp: 0, ki: 0, kd: 0, ks: 0, kk: 0 }),
    {
        Self { kp: 0, ki: 0, kd: 0, ks: 0, kk: 0 }
    }

    #[verifier::allow_in_spec]
    pub fn new5(kp: u8, ki: u8, kd: u8, ks: u8, kk: u8) -> Self
        returns
            (Self { kp, ki, kd, ks, kk }),
    {
        Self { kp, ki, kd, ks, kk }
    }
}

impl Default for PidConfig {
    fn default() -> (r: Self)
        ensures
            r == Self::new(),
    {
        Self::new()
    }
}

/// PID gains of the rate and angle loops; the defaults are compatible with Betaflight.
#[derive(Clone, Copy, Debug, PartialEq, Eq, Structural)]
pub struct PidConfigs {
    pub roll_rate: PidConfig,
    pub pitch_rate: PidConfig,
    pub yaw_rate: PidConfig,
    pub roll_angle: PidConfig,
    pub pitch_angle: PidConfig,
}

impl PidConfigs {
    #[verifier::allow_in_spec]
    pub fn new() -> Self
        returns
            (Self {
                roll_rate: PidConfig::new5(45, 80, 30, 120, 0),
                pitch_rate: PidConfig::new5(47, 84, 34, 125, 0),
                yaw_rate: PidConfig::new5(45, 80, 0, 120, 0),
                roll_angle: PidConfig::new5(50, 75, 75, 50, 0),
                pitch_angle: PidConfig::new5(50, 75, 75, 50, 0),
            }),
    {
        Self {
            roll_rate: PidConfig::new5(45, 80, 30, 120, 0),
            pitch_rate: PidConfig::new5(47, 84, 34, 125, 0),
            yaw_rate: PidConfig::new5(45, 80, 0, 120, 0),
            roll_angle: PidConfig::new5(50, 75, 75, 50, 0),
            pitch_angle: PidConfig::new5(50, 75, 75, 50, 0),
        }
    }
}

impl Default for PidConfigs {
    fn default() -> (r: Self)
        ensures
            r == Self::new(),
    {
        Self::new()
    }
}

/// Configuration data for the flight controller filters: the dterm filters, the output filters, and the RC smoothing filters. Filter types are PT1, BIQUAD, PT2 and PT3.
#[derive(Clone, Copy, Debug, PartialEq, Eq, Structural)]
pub struct FlightControllerFiltersConfig {
    pub dterm_lpf1_hz: u16,
    pub dterm_lpf2_hz: u16,
    pub dterm_notch_hz: u16,
    pub dterm_notch_cutoff: u16,
    pub dterm_dynamic_lpf1_min_hz: u16,
    pub dterm_dynamic_lpf1_max_hz: u16,
    pub dterm_lpf1_type: u8,
    pub dterm_lpf2_type: u8,
    pub yaw_lpf_hz: u16,
    pub output_lpf_hz: u16,
    pub rc_smoothing_feedforward_cutoff: u8,
}

impl FlightControllerFiltersConfig {
    pub const PT1: u8 = 0;
    pub const BIQUAD: u8 = 1;
    pub const PT2: u8 = 2;
    pub const PT3: u8 = 3;

    #[verifier::allow_in_spec]
    pub fn new() -> Self
        returns
            (Self {
                dterm_lpf1_hz: 75,
                dterm_lpf2_hz: 150,
                dterm_notch_hz: 0,
                dterm_notch_cutoff: 160,
                dterm_dynamic_lpf1_min_hz: 75,
                dterm_dynamic_lpf1_max_hz: 150,
                dterm_lpf1_type: Self::PT1,
                dterm_lpf2_type: Self::PT1,
                yaw_lpf_hz: 100,
                output_lpf_hz: 500,
                rc_smoothing_feedforward_cutoff: 0,
            }),
    {
        Self {
            dterm_lpf1_hz: 75,
            dterm_lpf2_hz: 150,
            dterm_notch_hz: 0,
            dterm_notch_cutoff: 160,
            dterm_dynamic_lpf1_min_hz: 75,
            dterm_dynamic_lpf1_max_hz: 150,
            dterm_lpf1_type: Self::PT1,
            dterm_lpf2_type: Self::PT1,
            yaw_lpf_hz: 100,
            output_lpf_hz: 500,
            rc_smoothing_feedforward_cutoff: 0,
        }
    }
}

impl Default for FlightControllerFiltersConfig {
    fn default() -> (r: Self)
        ensures
            r == Self::new(),
    {
        Self::new()
    }
}

/// Flight mode settings.
#[derive(Clone, Copy, Debug, PartialEq, Eq, Structural)]
pub struct FlightModeConfig {
    /// Angle mode on roll, acro mode on pitch ("not fast enough" race mode).
    pub level_race_mode: u8,
}

impl FlightModeConfig {
    #[verifier::allow_in_spec]
    pub fn new() -> Self
        returns
            (Self { level_race_mode: 0 }),
    {
        Self { level_race_mode: 0 }
    }
}

impl Default for FlightModeConfig {
    fn default() -> (r: Self)
        ensures
            r == Self::new(),
    {
        Self::new()
    }
}

/// Configuration data for Throttle PID Attenuation (TPA), which adjusts the PID gains according to the throttle value.
#[derive(Clone, Copy, Debug, PartialEq, Eq, Structural)]
pub struct TpaConfig {
    pub mode: u8,
    pub rate: u8,
    pub breakpoint: u16,
    pub low_rate: i8,
    pub low_always: u8,
    pub low_breakpoint: u16,
}

impl TpaConfig {
    pub const TPA_MODE_P: u8 = 0;
    pub const TPA_MODE_D: u8 = 1;
    pub const TPA_MODE_PDS: u8 = 2;

    #[verifier::allow_in_spec]
    pub fn new() -> Self
        returns
            (Self {
                mode: Self::TPA_MODE_D,
                rate: 65,
                breakpoint: 1350,
                low_rate: 20,
                low_always: 0,
                low_breakpoint: 1050,
            }),
    {
        Self {
            mode: Self::TPA_MODE_D,
            rate: 65,
            breakpoint: 1350,
            low_rate: 20,
            low_always: 0,
            low_breakpoint: 1050,
        }
    }
}

impl Default for TpaConfig {
    fn default() -> (r: Self)
        ensures
            r == Self::new(),
    {
        Self::new()
    }
}

/// Anti-gravity settings.
#[derive(Clone, Copy, Debug, PartialEq, Eq, Structural)]
pub struct AntiGravityConfig {
    pub cutoff_hz: u8,
    pub p_gain: u8,
    pub i_gain: u8,
}

impl AntiGravityConfig {
    #[verifier::allow_in_spec]
    pub fn new() -> Self
        returns
            (Self { cutoff_hz: 5, p_gain: 100, i_gain: 80 }),
    {
        Self { cutoff_hz: 5, p_gain: 100, i_gain: 80 }
    }
}

impl Default for AntiGravityConfig {
    fn default() -> (r: Self)
        ensures
            r == Self::new(),
    {
        Self::new()
    }
}

/// Crash flip (turtle mode) settings.
#[derive(Clone, Copy, Debug, PartialEq, Eq, Structural)]
pub struct CrashFlipConfig {
    pub motor_percent: u8,
    pub rate: u8,
    pub auto_rearm: u8,
}

impl CrashFlipConfig {
    #[verifier::allow_in_spec]
    pub fn new() -> Self
        returns
            (Self { motor_percent: 0, rate: 0, auto_rearm: 0 }),
    {
        Self { motor_percent: 0, rate: 0, auto_rearm: 0 }
    }
}

impl Default for CrashFlipConfig {
    fn default() -> (r: Self)
        ensures
            r == Self::new(),
    {
        Self::new()
    }
}

/// Yaw spin recovery settings.
#[derive(Clone, Copy, Debug, PartialEq, Eq, Structural)]
pub struct YawSpinRecoveryConfig {
    pub yaw_spin_threshold: i16,
    pub yaw_spin_recovery: u8,
}

impl YawSpinRecoveryConfig {
    pub const RECOVERY_OFF: u8 = 0;
    pub const RECOVERY_ON: u8 = 1;
    pub const RECOVERY_AUTO: u8 = 2;

    #[verifier::allow_in_spec]
    pub fn new() -> Self
        returns
            (Self { yaw_spin_threshold: 0, yaw_spin_recovery: Self::RECOVERY_OFF }),
    {
        Self { yaw_spin_threshold: 0, yaw_spin_recovery: Self::RECOVERY_OFF }
    }
}

impl Default for YawSpinRecoveryConfig {
    fn default() -> (r: Self)
        ensures
            r == Self::new(),
    {
        Self::new()
    }
}

/// Crash detection and recovery settings.
#[derive(Clone, Copy, Debug, PartialEq, Eq, Structural)]
pub struct CrashRecoveryConfig {
    /// Dterm crash value.
    pub d_threshold: u16,
    /// Gyro crash value.
    pub g_threshold: u16,
    /// Setpoint must be below this value to detect a crash, so flips and rolls are not taken for crashes.
    pub setpoint_threshold: u16,
    /// ms.
    pub time: u16,
    /// ms.
    pub delay: u16,
    /// Limits the yaw error rate, so crashes do not cause a huge throttle increase.
    pub limit_yaw: u16,
    /// Degrees.
    pub recovery_angle: u8,
    /// Degrees per second.
    pub recovery_rate: u8,
    /// Off, on, or on with beeps while in crash recovery.
    pub recovery: u8,
}

impl CrashRecoveryConfig {
    #[verifier::allow_in_spec]
    pub fn new() -> Self
        returns
            (Self {
                d_threshold: 50,
                g_threshold: 400,
                setpoint_threshold: 350,
                time: 500,
                delay: 0,
                limit_yaw: 200,
                recovery_angle: 10,
                recovery_rate: 100,
                recovery: 0,
            }),
    {
        Self {
            d_threshold: 50,
            g_threshold: 400,
            setpoint_threshold: 350,
            time: 500,
            delay: 0,
            limit_yaw: 200,
            recovery_angle: 10,
            recovery_rate: 100,
            recovery: 0,
        }
    }
}

impl Default for CrashRecoveryConfig {
    fn default() -> (r: Self)
        ensures
            r == Self::new(),
    {
        Self::new()
    }
}

/// I-term relax settings.
#[derive(Clone, Copy, Debug, PartialEq, Eq, Structural)]
pub struct ItermRelaxConfig {
    /// Not used.
    pub relax_type: u8,
    /// Suppress the I-term during stick input.
    pub relax: u8,
    /// Full I-term suppression once the setpoint exceeds this rate (degrees per second).
    pub relax_setpoint_threshold_dps: u8,
    /// Cutoff frequency of the low pass filter that predicts the average response to the setpoint.
    pub relax_cutoff: u8,
}

impl ItermRelaxConfig {
    pub const RELAX_OFF: u8 = 0;
    pub const RELAX_ON: u8 = 1;

    #[verifier::allow_in_spec]
    pub fn new() -> Self
        returns
            (Self {
                relax_type: 0,
                relax: Self::RELAX_ON,
                relax_setpoint_threshold_dps: 40,
                relax_cutoff: 15,
            }),
    {
        Self {
            relax_type: 0,
            relax: Self::RELAX_ON,
            relax_setpoint_threshold_dps: 40,
            relax_cutoff: 15,
        }
    }
}

impl Default for ItermRelaxConfig {
    fn default() -> (r: Self)
        ensures
            r == Self::new(),
    {
        Self::new()
    }
}

/// D-max settings.
#[derive(Clone, Copy, Debug, PartialEq)]
pub struct DMaxConfig {
    /// Maximum D value on each axis.
    pub d_max: [u8; 2],
    /// Gain factor for the gyro or setpoint activity required to boost D.
    pub gain: u8,
    /// Percentage multiplier for the setpoint.
    pub advance: u8,
}

impl DMaxConfig {
    pub fn new() -> (r: Self)
        ensures
            r.d_max@ == seq![0u8, 0u8],
            r.gain == 0,
            r.advance == 0,
    {
        let r = Self { d_max: [0u8; 2], gain: 0, advance: 0 };
        assert(r.d_max@ =~= seq![0u8, 0u8]);
        r
    }
}

impl Default for DMaxConfig {
    fn default() -> (r: Self)
        ensures
            r.d_max@ == seq![0u8, 0u8],
            r.gain == 0,
            r.advance == 0,
    {
        Self::new()
    }
}

} // verus!
