use vstd::prelude::*;

verus! {

/// How the GPS receiver is set up, each setting stored as its byte.
#[derive(Clone, Copy, Debug, PartialEq, Eq, Structural)]
pub struct GpsConfig {
    pub provider: u8,
    pub sbas_mode: u8,
    pub auto_config: u8,
    pub auto_baud: u8,
    pub gps_ublox_acquire_model: u8,
    pub gps_ublox_flight_model: u8,
    pub gps_update_rate_hz: u8,
    pub gps_ublox_use_galileo: u8,
    pub gps_set_home_point_once: u8,
    pub gps_use_3d_speed: u8,
    pub sbas_integrity: u8,
    pub gps_ublox_utc_standard: u8,
}

impl GpsConfig {
    #[verifier::allow_in_spec]
    pub fn new() -> Self
        returns
            (Self {
                provider: Gps::GPS_UBLOX,
                sbas_mode: Gps::SBAS_NONE,
                auto_config: Gps::AUTO_CONFIG_ON,
                auto_baud: Gps::AUTO_BAUD_OFF,
                gps_ublox_acquire_model: Gps::MODEL_STATIONARY,
                gps_ublox_flight_model: Gps::MODEL_AIRBORNE_4G,
                gps_update_rate_hz: 10,
                gps_ublox_use_galileo: 0,
                gps_set_home_point_once: 0,
                gps_use_3d_speed: 0,
                sbas_integrity: 0,
                gps_ublox_utc_standard: Gps::UTC_STANDARD_AUTO,
            }),
    {
        Self {
            provider: Gps::GPS_UBLOX,
            sbas_mode: Gps::SBAS_NONE,
            auto_config: Gps::AUTO_CONFIG_ON,
            auto_baud: Gps::AUTO_BAUD_OFF,
            gps_ublox_acquire_model: Gps::MODEL_STATIONARY,
            gps_ublox_flight_model: Gps::MODEL_AIRBORNE_4G,
            gps_update_rate_hz: 10,
            gps_ublox_use_galileo: 0,
            gps_set_home_point_once: 0,
            gps_use_3d_speed: 0,
            sbas_integrity: 0,
            gps_ublox_utc_standard: Gps::UTC_STANDARD_AUTO,
        }
    }
}

impl Default for GpsConfig {
    fn default() -> (r: Self)
        ensures
            r == Self::new(),
    {
        Self::new()
    }
}

/// How the aircraft flies home when the pilot's link is lost, each mode stored as its byte.
#[derive(Clone, Copy, Debug, PartialEq, Eq, Structural)]
pub struct GpsRescueConfig {
    pub max_rescue_angle_degrees: u16,
    pub return_altitude_m: u16,
    pub descent_distance_m: u16,
    pub ground_speed_cmps: u16,
    pub yaw_kp: u8,
    pub min_sats: u8,
    pub vel_kp: u8,
    pub vel_ki: u8,
    pub vel_kd: u8,
    pub min_start_dist_m: u16,
    pub sanity_checks: u8,
    pub allow_arming_without_fix: u8,
    pub use_mag: u8,
    pub altitude_mode: u8,
    pub ascend_rate: u16,
    pub descend_rate: u16,
    pub initial_climb_m: u16,
    pub roll_mix: u8,
    pub disarm_threshold: u8,
    pub pitch_cutoff_hz: u8,
    pub imu_yaw_gain: u8,
}

impl GpsRescueConfig {
    pub const SANITY_OFF: u8 = 0;
    pub const SANITY_ON: u8 = 1;
    pub const SANITY_FS_ONLY: u8 = 2;
    pub const ALT_MODE_MAX: u8 = 0;
    pub const ALT_MODE_FIXED: u8 = 1;
    pub const ALT_MODE_CURRENT: u8 = 2;

    #[verifier::allow_in_spec]
    pub fn new() -> Self
        returns
            (Self {
                max_rescue_angle_degrees: 45,
                return_altitude_m: 30,
                descent_distance_m: 20,
                ground_speed_cmps: 750,
                yaw_kp: 20,
                min_sats: 8,
                vel_kp: 8,
                vel_ki: 40,
                vel_kd: 12,
                min_start_dist_m: 15,
                sanity_checks: Self::SANITY_FS_ONLY,
                allow_arming_without_fix: 0,
                use_mag: 0,
                altitude_mode: Self::ALT_MODE_MAX,
                ascend_rate: 750,
                descend_rate: 150,
                initial_climb_m: 10,
                roll_mix: 150,
                disarm_threshold: 30,
                pitch_cutoff_hz: 75,
                imu_yaw_gain: 10,
            }),
    {
        Self {
            max_rescue_angle_degrees: 45,
            return_altitude_m: 30,
            descent_distance_m: 20,
            ground_speed_cmps: 750,
            yaw_kp: 20,
            min_sats: 8,
            vel_kp: 8,
            vel_ki: 40,
            vel_kd: 12,
            min_start_dist_m: 15,
            sanity_checks: Self::SANITY_FS_ONLY,
            allow_arming_without_fix: 0,
            use_mag: 0,
            altitude_mode: Self::ALT_MODE_MAX,
            ascend_rate: 750,
            descend_rate: 150,
            initial_climb_m: 10,
            roll_mix: 150,
            disarm_threshold: 30,
            pitch_cutoff_hz: 75,
            imu_yaw_gain: 10,
        }
    }
}

impl Default for GpsRescueConfig {
    fn default() -> (r: Self)
        ensures
            r == Self::new(),
    {
        Self::new()
    }
}

/// The byte values that the GPS settings are stored as.
#[derive(Clone, Copy, Debug, PartialEq, Eq, Structural)]
pub struct Gps {}

impl Gps {
    pub const MODEL_PORTABLE: u8 = 0;
    pub const MODEL_STATIONARY: u8 = 1;
    pub const MODEL_PEDESTRIAN: u8 = 2;
    pub const MODEL_AUTOMOTIVE: u8 = 3;
    pub const MODEL_AT_SEA: u8 = 4;
    pub const MODEL_AIRBORNE_1G: u8 = 5;
    pub const MODEL_AIRBORNE_2G: u8 = 6;
    pub const MODEL_AIRBORNE_4G: u8 = 7;
    pub const UTC_STANDARD_AUTO: u8 = 0;
    pub const UTC_STANDARD_USNO: u8 = 3;
    pub const UTC_STANDARD_EU: u8 = 5;
    pub const UTC_STANDARD_SU: u8 = 6;
    pub const UTC_STANDARD_NTSC: u8 = 7;
    pub const SBAS_AUTO: u8 = 0;
    pub const SBAS_EGNOS: u8 = 1;
    pub const SBAS_WAAS: u8 = 2;
    pub const SBAS_MSAS: u8 = 3;
    pub const SBAS_GAGAN: u8 = 4;
    pub const SBAS_NONE: u8 = 5;
    pub const AUTO_CONFIG_OFF: u8 = 0;
    pub const AUTO_CONFIG_ON: u8 = 1;
    pub const AUTO_BAUD_OFF: u8 = 0;
    pub const AUTO_BAUD_ON: u8 = 1;
    pub const GPS_NMEA: u8 = 0;
    pub const GPS_UBLOX: u8 = 1;
    pub const GPS_MSP: u8 = 2;
    pub const GPS_VIRTUAL: u8 = 3;

    #[verifier::allow_in_spec]
    pub fn new() -> Self
        returns
            (Self {  }),
    {
        Self {  }
    }
}

impl Default for Gps {
    fn default() -> (r: Self)
        ensures
            r == Self::new(),
    {
        Self::new()
    }
}

} // verus!
