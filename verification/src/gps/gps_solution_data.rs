use vstd::prelude::*;
use crate::gps::narrow::{
    clamp_i16, clamp_to_i16, div_toward_zero, i16_as_u16, i32_quotient, i32_quotient_i32,
    reinterpret_i16_as_u16,
};
use crate::gps::nmea::nmea_gsa::NmeaGsa;
use crate::gps::nmea_gga::NmeaGga;
use crate::gps::nmea_gsv::NmeaGsv;
use crate::gps::nmea_rmc::NmeaRmc;
use crate::gps::ubx_nav_pvt::UbxNavPvt;

verus! {

/// Dilution of precision × 100. A value below 100 means great accuracy is possible with the
/// GPS satellite constellation.
#[derive(Clone, Copy, Debug, PartialEq, Eq, Structural)]
pub struct GpsDilution {
    /// Positional DOP, 3D.
    pub positional: u16,
    /// Horizontal DOP, 2D.
    pub horizontal: u16,
    /// Vertical DOP, 1D.
    pub vertical: u16,
}

impl GpsDilution {
    #[verifier::allow_in_spec]
    pub fn new() -> Self
        returns
            (Self { positional: 0, horizontal: 0, vertical: 0 }),
    {
        Self { positional: 0, horizontal: 0, vertical: 0 }
    }
}

impl Default for GpsDilution {
    fn default() -> (r: Self)
        ensures
            r == Self::new(),
    {
        Self::new()
    }
}

/// Accuracy estimates of a solution.
#[derive(Clone, Copy, Debug, PartialEq, Eq, Structural)]
pub struct GpsAccuracy {
    /// Horizontal accuracy in mm.
    pub h_accuracy_mm: u32,
    /// Vertical accuracy in mm.
    pub v_accuracy_mm: u32,
    /// Speed accuracy in mm/s.
    pub s_accuracy_mm: u32,
    /// Heading accuracy in degrees × 1e-5.
    pub heading_accuracy_degrees_x1e5: u32,
}

impl GpsAccuracy {
    #[verifier::allow_in_spec]
    pub fn new() -> Self
        returns
            (Self {
                h_accuracy_mm: 0,
                v_accuracy_mm: 0,
                s_accuracy_mm: 0,
                heading_accuracy_degrees_x1e5: 0,
            }),
    {
        Self { h_accuracy_mm: 0, v_accuracy_mm: 0, s_accuracy_mm: 0, heading_accuracy_degrees_x1e5: 0 }
    }
}

impl Default for GpsAccuracy {
    fn default() -> (r: Self)
        ensures
            r == Self::new(),
    {
        Self::new()
    }
}

/// Velocity in the north-east-down frame.
#[derive(Clone, Copy, Debug, PartialEq, Eq, Structural)]
pub struct GpsVelocityNedCmps {
    /// North speed, in cm/s.
    pub north: i16,
    /// East speed, in cm/s.
    pub east: i16,
    /// Down speed, in cm/s.
    pub down: i16,
}

impl GpsVelocityNedCmps {
    #[verifier::allow_in_spec]
    pub fn new() -> Self
        returns
            (Self { north: 0, east: 0, down: 0 }),
    {
        Self { north: 0, east: 0, down: 0 }
    }
}

impl Default for GpsVelocityNedCmps {
    fn default() -> (r: Self)
        ensures
            r == Self::new(),
    {
        Self::new()
    }
}

/// GPS date and time from a NAV-PVT message.
#[derive(Clone, Copy, Debug, PartialEq, Eq, Structural)]
pub struct GpsDateTime {
    pub year: u16,
    pub month: u8,
    pub day: u8,
    pub hour: u8,
    pub min: u8,
    pub sec: u8,
    pub millis: u16,
    /// Whether the receiver reported date and time as valid.
    pub valid: bool,
}

impl GpsDateTime {
    #[verifier::allow_in_spec]
    pub fn new() -> Self
        returns
            (Self { year: 0, month: 0, day: 0, hour: 0, min: 0, sec: 0, millis: 0, valid: false }),
    {
        Self { year: 0, month: 0, day: 0, hour: 0, min: 0, sec: 0, millis: 0, valid: false }
    }
}

impl Default for GpsDateTime {
    fn default() -> (r: Self)
        ensures
            r == Self::new(),
    {
        Self::new()
    }
}

/// A navigation solution with its accuracy, velocity, date and time.
#[derive(Clone, Copy, Debug, PartialEq, Eq, Structural)]
pub struct GpsSolutionData {
    pub longitude_degrees_x1e7: i32,
    pub latitude_degrees_x1e7: i32,
    pub altitude_cm: i32,
    pub dop: GpsDilution,
    pub accuracy: GpsAccuracy,
    pub velocity_ned_cmps: GpsVelocityNedCmps,
    /// Speed in cm/s.
    pub speed3d_cmps: u16,
    /// Speed in cm/s.
    pub ground_speed_cmps: u16,
    /// Degrees × 10.
    pub ground_course_degrees_x10: u16,
    pub satellite_count: u8,
    pub time: u32,
    /// Interval between navigation solutions in ms.
    pub navigation_interval_ms: u32,
    /// GPS date and time from NAV-PVT.
    pub date_time: GpsDateTime,
}

impl GpsSolutionData {
    #[verifier::allow_in_spec]
    pub fn new() -> Self
        returns
            (Self {
                longitude_degrees_x1e7: 0,
                latitude_degrees_x1e7: 0,
                altitude_cm: 0,
                dop: GpsDilution::new(),
                accuracy: GpsAccuracy::new(),
                velocity_ned_cmps: GpsVelocityNedCmps::new(),
                speed3d_cmps: 0,
                ground_speed_cmps: 0,
                ground_course_degrees_x10: 0,
                satellite_count: 0,
                time: 0,
                navigation_interval_ms: 0,
                date_time: GpsDateTime::new(),
            }),
    {
        Self {
            longitude_degrees_x1e7: 0,
            latitude_degrees_x1e7: 0,
            altitude_cm: 0,
            dop: GpsDilution::new(),
            accuracy: GpsAccuracy::new(),
            velocity_ned_cmps: GpsVelocityNedCmps::new(),
            speed3d_cmps: 0,
            ground_speed_cmps: 0,
            ground_course_degrees_x10: 0,
            satellite_count: 0,
            time: 0,
            navigation_interval_ms: 0,
            date_time: GpsDateTime::new(),
        }
    }

    /// Takes position, altitude and satellite count from GGA.
    pub fn amend_with_gga(&mut self, gga: NmeaGga)
        ensures
            *final(self) == (GpsSolutionData {
                latitude_degrees_x1e7: gga.latitude_degrees_x1e7,
                longitude_degrees_x1e7: gga.longitude_degrees_x1e7,
                altitude_cm: gga.altitude_cm,
                satellite_count: gga.satellite_count,
                ..*old(self)
            }),
    {
        self.latitude_degrees_x1e7 = gga.latitude_degrees_x1e7;
        self.longitude_degrees_x1e7 = gga.longitude_degrees_x1e7;
        self.altitude_cm = gga.altitude_cm;
        self.satellite_count = gga.satellite_count;
    }

    /// Takes note of a GSA record; the solution takes nothing from it.
    pub fn amend_with_gsa(&mut self, gsa: NmeaGsa)
        ensures
            *final(self) == *old(self),
    {
    }

    /// Takes note of a GSV record; the solution takes nothing from it.
    pub fn amend_with_gsv(&mut self, gsv: NmeaGsv)
        ensures
            *final(self) == *old(self),
    {
    }

    /// Takes note of an RMC record; the solution takes nothing from it.
    pub fn amend_with_rmc(&mut self, rmc: NmeaRmc)
        ensures
            *final(self) == *old(self),
    {
    }

    /// Takes position, altitude (mm to cm), velocities (mm/s to cm/s, limited to `i16`),
    /// ground speed (likewise limited to `i16`, then stored as its `u16` bits) and satellite
    /// count from a NAV-PVT message; divisions round toward zero.
    pub fn amend_with_nav_pvt_data(&mut self, nav: UbxNavPvt)
        ensures
            *final(self) == (GpsSolutionData {
                longitude_degrees_x1e7: nav.longitude_degrees_x1e7,
                latitude_degrees_x1e7: nav.latitude_degrees_x1e7,
                altitude_cm: i32_quotient_i32(nav.height_msl_mm, 10),
                velocity_ned_cmps: GpsVelocityNedCmps {
                    north: clamp_i16(i32_quotient(nav.velocity_north_mmps, 10)),
                    east: clamp_i16(i32_quotient(nav.velocity_east_mmps, 10)),
                    down: clamp_i16(i32_quotient(nav.velocity_down_mmps, 10)),
                },
                ground_speed_cmps: i16_as_u16(clamp_i16(i32_quotient(nav.ground_speed_mmps, 10))),
                satellite_count: nav.satellite_count,
                ..*old(self)
            }),
    {
        self.longitude_degrees_x1e7 = nav.longitude_degrees_x1e7;
        self.latitude_degrees_x1e7 = nav.latitude_degrees_x1e7;
        self.altitude_cm = div_toward_zero(nav.height_msl_mm, 10);
        self.velocity_ned_cmps.north = clamp_to_i16(div_toward_zero(nav.velocity_north_mmps, 10));
        self.velocity_ned_cmps.east = clamp_to_i16(div_toward_zero(nav.velocity_east_mmps, 10));
        self.velocity_ned_cmps.down = clamp_to_i16(div_toward_zero(nav.velocity_down_mmps, 10));
        self.ground_speed_cmps = reinterpret_i16_as_u16(
            clamp_to_i16(div_toward_zero(nav.ground_speed_mmps, 10)),
        );
        self.satellite_count = nav.satellite_count;
    }
}

impl Default for GpsSolutionData {
    fn default() -> (r: Self)
        ensures
            r == Self::new(),
    {
        Self::new()
    }
}

/// The part of the solution that is passed on to other tasks.
#[derive(Clone, Copy, Debug, PartialEq, Eq, Structural)]
pub struct GpsSolutionDataAbridged {
    pub longitude_degrees_x1e7: i32,
    pub latitude_degrees_x1e7: i32,
    pub altitude_cm: i32,
    pub satellite_count: u8,
    /// Speed in cm/s.
    pub ground_speed_cmps: u16,
    /// Degrees × 10.
    pub ground_course_degrees_x10: u16,
    pub dop_positional: u16,
}

impl GpsSolutionDataAbridged {
    #[verifier::allow_in_spec]
    pub fn new() -> Self
        returns
            (Self {
                longitude_degrees_x1e7: 0,
                latitude_degrees_x1e7: 0,
                altitude_cm: 0,
                satellite_count: 0,
                ground_speed_cmps: 0,
                ground_course_degrees_x10: 0,
                dop_positional: 0,
            }),
    {
        Self {
            longitude_degrees_x1e7: 0,
            latitude_degrees_x1e7: 0,
            altitude_cm: 0,
            satellite_count: 0,
            ground_speed_cmps: 0,
            ground_course_degrees_x10: 0,
            dop_positional: 0,
        }
    }
}

impl Default for GpsSolutionDataAbridged {
    fn default() -> (r: Self)
        ensures
            r == Self::new(),
    {
        Self::new()
    }
}

} // verus!
