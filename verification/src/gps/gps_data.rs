use vstd::prelude::*;
use crate::gps::narrow::{
    clamp_i16, clamp_to_i16, div_toward_zero, i32_quotient, i32_quotient_i32, quotient_as_i32, reinterpret_u32_as_i32,
    u32_as_i32,
};
use crate::gps::nmea::nmea_gsa::NmeaGsa;
use crate::gps::nmea_gga::NmeaGga;
use crate::gps::nmea_gsv::NmeaGsv;
use crate::gps::nmea_rmc::NmeaRmc;
use crate::gps::ubx::ubx_nav_dop::UbxNavDop;
use crate::gps::ubx_nav_pvt::UbxNavPvt;

verus! {

/// The navigation solution as the flight controller uses it: position, velocity, heading,
/// fix quality and dilution of precision, merged from NMEA and UBX records.
#[derive(Clone, Copy, Debug, PartialEq, Eq, Structural)]
pub struct GpsData {
    pub longitude_degrees_x1e7: i32,
    pub latitude_degrees_x1e7: i32,
    pub altitude_cm: i32,
    pub geoid_separation_cm: i32,
    pub time_of_week_ms: u32,
    pub velocity_north_cmps: i16,
    pub velocity_east_cmps: i16,
    pub velocity_down_cmps: i16,
    pub speed3d_cmps: i16,
    pub ground_speed_cmps: i16,
    pub heading_deci_degrees: i16,
    /// GGA: satellites tracked.
    pub satellite_count: u8,
    /// GSA: satellites used in the solution.
    pub satellites_used: u8,
    /// GGA fix quality.
    pub fix: u8,
    /// GSA: 1, 2 or 3.
    pub fix_type: u8,
    pub is_healthy: u8,
    /// 3D positional dilution of position.
    pub pdop_x100: u16,
    /// 2D horizontal dilution of position.
    pub hdop_x100: u16,
    /// 1D vertical dilution of position.
    pub vdop_x100: u16,
    pub update: u8,
}

impl GpsData {
    pub const FIX_HOME: u8 = 0x01;
    pub const FIX: u8 = 0x02;
    pub const FIX_EVER: u8 = 0x04;

    #[verifier::allow_in_spec]
    pub fn new() -> Self
        returns
            (Self {
                longitude_degrees_x1e7: 0,
                latitude_degrees_x1e7: 0,
                altitude_cm: 0,
                geoid_separation_cm: 0,
                time_of_week_ms: 0,
                velocity_north_cmps: 0,
                velocity_east_cmps: 0,
                velocity_down_cmps: 0,
                speed3d_cmps: 0,
                ground_speed_cmps: 0,
                heading_deci_degrees: 0,
                satellite_count: 0,
                satellites_used: 0,
                fix: 0,
                fix_type: 0,
                is_healthy: 0,
                pdop_x100: 0,
                hdop_x100: 0,
                vdop_x100: 0,
                update: 0,
            }),
    {
        Self {
            longitude_degrees_x1e7: 0,
            latitude_degrees_x1e7: 0,
            altitude_cm: 0,
            geoid_separation_cm: 0,
            time_of_week_ms: 0,
            velocity_north_cmps: 0,
            velocity_east_cmps: 0,
            velocity_down_cmps: 0,
            speed3d_cmps: 0,
            ground_speed_cmps: 0,
            heading_deci_degrees: 0,
            satellite_count: 0,
            satellites_used: 0,
            fix: 0,
            fix_type: 0,
            is_healthy: 0,
            pdop_x100: 0,
            hdop_x100: 0,
            vdop_x100: 0,
            update: 0,
        }
    }

    /// Takes position, altitude, geoid separation, satellite count and fix quality from GGA.
    pub fn amend_with_nmea_gga(&mut self, gga: NmeaGga)
        ensures
            *final(self) == (GpsData {
                latitude_degrees_x1e7: gga.latitude_degrees_x1e7,
                longitude_degrees_x1e7: gga.longitude_degrees_x1e7,
                altitude_cm: gga.altitude_cm,
                geoid_separation_cm: gga.geoid_separation_cm,
                satellite_count: gga.satellite_count,
                fix: gga.fix,
                ..*old(self)
            }),
    {
        self.latitude_degrees_x1e7 = gga.latitude_degrees_x1e7;
        self.longitude_degrees_x1e7 = gga.longitude_degrees_x1e7;
        self.altitude_cm = gga.altitude_cm;
        self.geoid_separation_cm = gga.geoid_separation_cm;
        self.satellite_count = gga.satellite_count;
        self.fix = gga.fix;
    }

    /// Takes note of a GSA record; the data takes nothing from it.
    pub fn amend_with_nmea_gsa(&mut self, gsa: NmeaGsa)
        ensures
            *final(self) == *old(self),
    {
    }

    /// Takes note of a GSV record; the data takes nothing from it.
    pub fn amend_with_nmea_gsv(&mut self, gsv: NmeaGsv)
        ensures
            *final(self) == *old(self),
    {
    }

    /// Takes note of an RMC record; the data takes nothing from it.
    pub fn amend_with_nmea_rmc(&mut self, rmc: NmeaRmc)
        ensures
            *final(self) == *old(self),
    {
    }

    /// Takes the solution of a NAV-PVT message: position, altitude above mean sea level and
    /// geoid separation (mm to cm), time of week, velocities and ground speed (mm/s to cm/s)
    /// and heading (1e-5 to 1e-1 degrees), each rounded toward zero and limited to `i16`,
    /// satellite count, fix type, and health from the GNSS-fix-OK flag.
    pub fn amend_with_ubx_nav_pvt(&mut self, nav: UbxNavPvt)
        requires
            i32::MIN <= nav.height_ellipsoid_mm - nav.height_msl_mm <= i32::MAX,
        ensures
            *final(self) == (GpsData {
                longitude_degrees_x1e7: nav.longitude_degrees_x1e7,
                latitude_degrees_x1e7: nav.latitude_degrees_x1e7,
                altitude_cm: i32_quotient_i32(nav.height_msl_mm, 10),
                geoid_separation_cm: quotient_as_i32(nav.height_ellipsoid_mm - nav.height_msl_mm, 10),
                time_of_week_ms: nav.time_of_week_ms,
                velocity_north_cmps: clamp_i16(i32_quotient(nav.velocity_north_mmps, 10)),
                velocity_east_cmps: clamp_i16(i32_quotient(nav.velocity_east_mmps, 10)),
                velocity_down_cmps: clamp_i16(i32_quotient(nav.velocity_down_mmps, 10)),
                ground_speed_cmps: clamp_i16(i32_quotient(nav.ground_speed_mmps, 10)),
                heading_deci_degrees: clamp_i16(
                    i32_quotient(u32_as_i32(nav.heading_degrees_x1e5), 1000),
                ),
                satellite_count: nav.satellite_count,
                fix: nav.fix_type,
                is_healthy: if nav.flags & 1 != 0 {
                    1
                } else {
                    0
                },
                ..*old(self)
            }),
    {
        self.longitude_degrees_x1e7 = nav.longitude_degrees_x1e7;
        self.latitude_degrees_x1e7 = nav.latitude_degrees_x1e7;
        self.altitude_cm = div_toward_zero(nav.height_msl_mm, 10);
        let geoid_separation_mm = nav.height_ellipsoid_mm - nav.height_msl_mm;
        self.geoid_separation_cm = div_toward_zero(geoid_separation_mm, 10);
        self.time_of_week_ms = nav.time_of_week_ms;
        self.velocity_north_cmps = clamp_to_i16(div_toward_zero(nav.velocity_north_mmps, 10));
        self.velocity_east_cmps = clamp_to_i16(div_toward_zero(nav.velocity_east_mmps, 10));
        self.velocity_down_cmps = clamp_to_i16(div_toward_zero(nav.velocity_down_mmps, 10));
        self.ground_speed_cmps = clamp_to_i16(div_toward_zero(nav.ground_speed_mmps, 10));
        self.heading_deci_degrees = clamp_to_i16(
            div_toward_zero(reinterpret_u32_as_i32(nav.heading_degrees_x1e5), 1000),
        );
        self.satellite_count = nav.satellite_count;
        self.fix = nav.fix_type;
        self.is_healthy = if nav.flags & 0x01 != 0 {
            1
        } else {
            0
        };
    }

    /// Takes the dilutions of precision of a DOP message newer than the last solution.
    pub fn amend_with_ubx_nav_dop(&mut self, dop: UbxNavDop)
        ensures
            *final(self) == if dop.time_of_week_ms > old(self).time_of_week_ms {
                GpsData {
                    pdop_x100: dop.pdop_x100,
                    hdop_x100: dop.hdop_x100,
                    vdop_x100: dop.vdop_x100,
                    ..*old(self)
                }
            } else {
                *old(self)
            },
    {
        if dop.time_of_week_ms > self.time_of_week_ms {
            self.pdop_x100 = dop.pdop_x100;
            self.hdop_x100 = dop.hdop_x100;
            self.vdop_x100 = dop.vdop_x100;
        }
    }
}

impl Default for GpsData {
    fn default() -> (r: Self)
        ensures
            r == Self::new(),
    {
        Self::new()
    }
}

/// The part of the solution that is passed on to other tasks.
#[derive(Clone, Copy, Debug, PartialEq, Eq, Structural)]
pub struct GpsDataAbridged {
    pub longitude_degrees_x1e7: i32,
    pub latitude_degrees_x1e7: i32,
    pub altitude_cm: i32,
    pub satellite_count: u8,
    /// Speed in cm/s.
    pub ground_speed_cmps: u16,
    /// Degrees × 10.
    pub ground_course_degrees_x10: u16,
    pub pdop: u16,
}

impl GpsDataAbridged {
    #[verifier::allow_in_spec]
    pub fn new() -> Self
        returns
            (Self {
                longitude_degrees_x1e7: 0,
                latitude_degrees_x1e7: 0,
                altitude_cm: 0,
                satellite_count: 0,
                ground_speed_cmps: 0,
                ground_course_degrees_x10: 0,
                pdop: 0,
            }),
    {
        Self {
            longitude_degrees_x1e7: 0,
            latitude_degrees_x1e7: 0,
            altitude_cm: 0,
            satellite_count: 0,
            ground_speed_cmps: 0,
            ground_course_degrees_x10: 0,
            pdop: 0,
        }
    }
}

impl Default for GpsDataAbridged {
    fn default() -> (r: Self)
        ensures
            r == Self::new(),
    {
        Self::new()
    }
}

} // verus!
