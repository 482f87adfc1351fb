use vstd::prelude::*;

verus! {

/// How the aircraft flies home when the pilot's link is lost.
#[derive(Clone, Copy, Debug, PartialEq, Eq, Structural)]
pub struct GpsRescueConfig {
    pub max_rescue_angle_degrees: u16,
    pub return_altitude_m: u16,
    pub descent_distance_m: u16,
    pub ground_speed_cmps: u16,
    pub yaw_kp: u8,
    pub min_sats: u8,
    pub vel_kp: u8,
    pub vel_ki: u8,
    pub vel_kd: u8,
    pub min_start_dist_m: u16,
    pub sanity_checks: GpsRescueSanityChecks,
    pub allow_arming_without_fix: u8,
    pub use_mag: u8,
    pub altitude_mode: GpsRescueAltitudeMode,
    pub ascend_rate: u16,
    pub descend_rate: u16,
    pub initial_climb_m: u16,
    pub roll_mix: u8,
    pub disarm_threshold: u8,
    pub pitch_cutoff_hz: u8,
    pub imu_yaw_gain: u8,
}

impl GpsRescueConfig {
    #[verifier::allow_in_spec]
    pub fn new() -> Self
        returns
            (Self {
                max_rescue_angle_degrees: 45,
                return_altitude_m: 30,
                descent_distance_m: 20,
                ground_speed_cmps: 750,
                yaw_kp: 20,
                min_sats: 8,
                vel_kp: 8,
                vel_ki: 40,
                vel_kd: 12,
                min_start_dist_m: 15,
                sanity_checks: GpsRescueSanityChecks::FsOnly,
                allow_arming_without_fix: 0,
                use_mag: 0,
                altitude_mode: GpsRescueAltitudeMode::Max,
                ascend_rate: 750,
                descend_rate: 150,
                initial_climb_m: 10,
                roll_mix: 150,
                disarm_threshold: 30,
                pitch_cutoff_hz: 75,
                imu_yaw_gain: 10,
            }),
    {
        Self {
            max_rescue_angle_degrees: 45,
            return_altitude_m: 30,
            descent_distance_m: 20,
            ground_speed_cmps: 750,
            yaw_kp: 20,
            min_sats: 8,
            vel_kp: 8,
            vel_ki: 40,
            vel_kd: 12,
            min_start_dist_m: 15,
            sanity_checks: GpsRescueSanityChecks::FsOnly,
            allow_arming_without_fix: 0,
            use_mag: 0,
            altitude_mode: GpsRescueAltitudeMode::Max,
            ascend_rate: 750,
            descend_rate: 150,
            initial_climb_m: 10,
            roll_mix: 150,
            disarm_threshold: 30,
            pitch_cutoff_hz: 75,
            imu_yaw_gain: 10,
        }
    }
}

impl Default for GpsRescueConfig {
    fn default() -> (r: Self)
        ensures
            r == Self::new(),
    {
        Self::new()
    }
}

/// When the rescue checks that it is making progress.
#[derive(Clone, Copy, Debug, PartialEq, Eq, Structural)]
pub enum GpsRescueSanityChecks {
    Off,
    On,
    FsOnly,
}

impl GpsRescueSanityChecks {
    /// The setting that a stored byte names; unknown bytes give the default.
    pub open spec fn of_u8(value: u8) -> GpsRescueSanityChecks {
        if value == 0 {
            GpsRescueSanityChecks::Off
        } else if value == 1 {
            GpsRescueSanityChecks::On
        } else if value == 2 {
            GpsRescueSanityChecks::FsOnly
        } else {
            GpsRescueSanityChecks::FsOnly
        }
    }

    pub fn from_u8(value: u8) -> (r: Self)
        ensures
            r == Self::of_u8(value),
    {
        match value {
            0 => Self::Off,
            1 => Self::On,
            2 => Self::FsOnly,
            _ => Self::FsOnly,
        }
    }

    /// The byte that stores this setting.
    pub open spec fn code(self) -> u8 {
        match self {
            GpsRescueSanityChecks::Off => 0,
            GpsRescueSanityChecks::On => 1,
            GpsRescueSanityChecks::FsOnly => 2,
        }
    }

    pub fn value(self) -> (r: u8)
        ensures
            r == self.code(),
    {
        match self {
            GpsRescueSanityChecks::Off => 0,
            GpsRescueSanityChecks::On => 1,
            GpsRescueSanityChecks::FsOnly => 2,
        }
    }
}

impl Default for GpsRescueSanityChecks {
    fn default() -> (r: Self)
        ensures
            r == GpsRescueSanityChecks::FsOnly,
    {
        GpsRescueSanityChecks::FsOnly
    }
}

/// Which altitude the rescue climbs to.
#[derive(Clone, Copy, Debug, PartialEq, Eq, Structural)]
pub enum GpsRescueAltitudeMode {
    Max,
    Fixed,
    Current,
}

impl GpsRescueAltitudeMode {
    /// The setting that a stored byte names; unknown bytes give the default.
    pub open spec fn of_u8(value: u8) -> GpsRescueAltitudeMode {
        if value == 0 {
            GpsRescueAltitudeMode::Max
        } else if value == 1 {
            GpsRescueAltitudeMode::Fixed
        } else if value == 2 {
            GpsRescueAltitudeMode::Current
        } else {
            GpsRescueAltitudeMode::Max
        }
    }

    pub fn from_u8(value: u8) -> (r: Self)
        ensures
            r == Self::of_u8(value),
    {
        match value {
            0 => Self::Max,
            1 => Self::Fixed,
            2 => Self::Current,
            _ => Self::Max,
        }
    }

    /// The byte that stores this setting.
    pub open spec fn code(self) -> u8 {
        match self {
            GpsRescueAltitudeMode::Max => 0,
            GpsRescueAltitudeMode::Fixed => 1,
            GpsRescueAltitudeMode::Current => 2,
        }
    }

    pub fn value(self) -> (r: u8)
        ensures
            r == self.code(),
    {
        match self {
            GpsRescueAltitudeMode::Max => 0,
            GpsRescueAltitudeMode::Fixed => 1,
            GpsRescueAltitudeMode::Current => 2,
        }
    }
}

impl Default for GpsRescueAltitudeMode {
    fn default() -> (r: Self)
        ensures
            r == GpsRescueAltitudeMode::Max,
    {
        GpsRescueAltitudeMode::Max
    }
}

} // verus!
