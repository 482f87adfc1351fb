use vstd::prelude::*;

use crate::gps::nmea_gga::talker_is;
use crate::gps::nmea_parser::{
    nmea_fields, parse_fixed_point, parse_nmea_coordinate, spec_parse_fixed_point,
    spec_parse_nmea_coordinate, lemma_coordinate_hemisphere, NmeaFields,
};
use crate::gps::narrow::{
    int_as_i16, narrow_i32_to_i16, narrow_to_i16, quotient_toward_zero, widen_to_i64,
};

verus! {

/// Recommended minimum data: `GPRMC,123519.00,A,4916.45,N,12311.12,W,022.4,084.4,230394,,,A`.
///
/// The fields are: 0 talker and type, 1 UTC time, 2 status (`A` healthy, `V` not),
/// 3 latitude, 4 N/S, 5 longitude, 6 E/W, 7 speed over ground in knots,
/// 8 course over ground in degrees, 9 date, then magnetic variation and mode, which are not read.
#[derive(Clone, Copy, Debug, PartialEq, Eq, Structural)]
pub struct NmeaRmc {
    pub time_of_day_ms: u32,
    pub latitude_degrees_x1e7: i32,
    pub longitude_degrees_x1e7: i32,
    pub is_healthy: u8,
    pub ground_speed_cmps: i16,
    pub heading_deci_degrees: i16,
}

/// Knots × 10 to centimetres per second (1 knot is 1852/3600 m/s), rounded toward zero.
pub open spec fn knots_x10_to_centimetres_per_second(knots_x10: int) -> int {
    quotient_toward_zero(knots_x10 * 1852, 360)
}

/// What `NmeaRmc::parse` returns for a sentence payload.
pub open spec fn spec_parse_rmc(record: Seq<u8>) -> Option<NmeaRmc> {
    let f = nmea_fields(record);
    if f.len() < 10 || !talker_is(f[0], 82, 77, 67) || f[2].len() != 1 || (f[2][0] != 65 && f[2][0]
        != 86) || f[4].len() != 1 || f[6].len() != 1 {
        None
    } else {
        let lat = spec_parse_nmea_coordinate(f[3], f[4][0]);
        let lon = spec_parse_nmea_coordinate(f[5], f[6][0]);
        let speed = spec_parse_fixed_point(f[7], 10);
        let course = spec_parse_fixed_point(f[8], 10);
        if lat is Some && lon is Some && speed is Some && i32::MIN <= speed->0 * 1852 <= i32::MAX
            && i16::MIN <= knots_x10_to_centimetres_per_second(speed->0 as int) <= i16::MAX && course is Some
            && i16::MIN <= course->0 <= i16::MAX {
            Some(
                NmeaRmc {
                    time_of_day_ms: 0,
                    latitude_degrees_x1e7: lat->0,
                    longitude_degrees_x1e7: lon->0,
                    is_healthy: if f[2][0] == 65 {
                        1
                    } else {
                        0
                    },
                    ground_speed_cmps: int_as_i16(knots_x10_to_centimetres_per_second(speed->0 as int)),
                    heading_deci_degrees: int_as_i16(course->0 as int),
                },
            )
        } else {
            None
        }
    }
}

/// Where each value of an RMC fix comes from: health from the status letter of field 2 (`A`
/// healthy, `V` not), the latitude from field 3 with the hemisphere letter of field 4 (south
/// negative, north non-negative), the longitude from fields 5 and 6, the ground speed from the
/// knots of field 7 (×10, converted to cm/s and rounded toward zero), the course (× 10) from
/// field 8.
pub proof fn lemma_rmc_fields(record: Seq<u8>)
    ensures
        spec_parse_rmc(record) matches Some(r) ==> {
            let f = nmea_fields(record);
            &&& f.len() >= 10
            &&& talker_is(f[0], 82, 77, 67)
            &&& f[2].len() == 1 && f[4].len() == 1 && f[6].len() == 1
            &&& (r.is_healthy == 1 <==> f[2][0] == 65u8)
            &&& (r.is_healthy == 0 <==> f[2][0] == 86u8)
            &&& r.latitude_degrees_x1e7 == spec_parse_nmea_coordinate(f[3], f[4][0])->0
            &&& r.longitude_degrees_x1e7 == spec_parse_nmea_coordinate(f[5], f[6][0])->0
            &&& (f[4][0] == 83u8 ==> r.latitude_degrees_x1e7 <= 0
                && r.latitude_degrees_x1e7 == -spec_parse_nmea_coordinate(f[3], 78u8)->0)
            &&& (f[4][0] == 78u8 ==> r.latitude_degrees_x1e7 >= 0)
            &&& (f[6][0] == 87u8 ==> r.longitude_degrees_x1e7 <= 0
                && r.longitude_degrees_x1e7 == -spec_parse_nmea_coordinate(f[5], 69u8)->0)
            &&& (f[6][0] == 69u8 ==> r.longitude_degrees_x1e7 >= 0)
            &&& r.ground_speed_cmps == quotient_toward_zero(
                spec_parse_fixed_point(f[7], 10)->0 * 1852,
                360,
            )
            &&& r.heading_deci_degrees == spec_parse_fixed_point(f[8], 10)->0
        },
{
    let f = nmea_fields(record);
    if spec_parse_rmc(record) is Some {
        lemma_coordinate_hemisphere(f[3], f[4][0]);
        lemma_coordinate_hemisphere(f[5], f[6][0]);
    }
}

impl NmeaRmc {
    #[verifier::allow_in_spec]
    pub fn new() -> Self
        returns
            (Self {
                time_of_day_ms: 0,
                latitude_degrees_x1e7: 0,
                longitude_degrees_x1e7: 0,
                is_healthy: 0,
                ground_speed_cmps: 0,
                heading_deci_degrees: 0,
            }),
    {
        Self {
            time_of_day_ms: 0,
            latitude_degrees_x1e7: 0,
            longitude_degrees_x1e7: 0,
            is_healthy: 0,
            ground_speed_cmps: 0,
            heading_deci_degrees: 0,
        }
    }

    /// Parses the payload of an RMC sentence. The time and date fields must be present but are not read.
    pub fn parse(record: &[u8]) -> (r: Option<Self>)
        ensures
            r == spec_parse_rmc(record@),
    {
        let mut fields = NmeaFields::new(record);
        let talker_id = match fields.next() {
            Some(t) => t,
            None => {
                return None;
            },
        };
        if talker_id.len() != 5 || talker_id[2] != 82 || talker_id[3] != 77 || talker_id[4] != 67 {
            return None;
        }
        let mut ret = Self::new();
        let _time = match fields.next() {
            Some(t) => t,
            None => {
                return None;
            },
        };
        let status = match fields.next() {
            Some(t) => t,
            None => {
                return None;
            },
        };
        if status.len() != 1 {
            return None;
        }
        if status[0] == 65 {
            ret.is_healthy = 1;
        } else if status[0] == 86 {
            ret.is_healthy = 0;
        } else {
            return None;
        }
        let latitude = match fields.next() {
            Some(t) => t,
            None => {
                return None;
            },
        };
        let latitude_direction = match fields.next() {
            Some(t) => t,
            None => {
                return None;
            },
        };
        let longitude = match fields.next() {
            Some(t) => t,
            None => {
                return None;
            },
        };
        let longitude_direction = match fields.next() {
            Some(t) => t,
            None => {
                return None;
            },
        };
        if latitude_direction.len() != 1 || longitude_direction.len() != 1 {
            return None;
        }
        ret.latitude_degrees_x1e7 = match parse_nmea_coordinate(latitude, latitude_direction[0]) {
            Some(v) => v,
            None => {
                return None;
            },
        };
        ret.longitude_degrees_x1e7 = match parse_nmea_coordinate(longitude, longitude_direction[0]) {
            Some(v) => v,
            None => {
                return None;
            },
        };
        // Field 7: speed over ground in knots.
        let speed = match fields.next() {
            Some(t) => t,
            None => {
                return None;
            },
        };
        let speed_knots_x10 = match parse_fixed_point(speed, 10) {
            Some(v) => v,
            None => {
                return None;
            },
        };
        let product: i64 = widen_to_i64(speed_knots_x10) * 1852;
        if product < -2_147_483_648 || product > 2_147_483_647 {
            return None;
        }
        let speed: i64 = if product >= 0 {
            product / 360
        } else {
            -((-product) / 360)
        };
        if speed < -32768 || speed > 32767 {
            return None;
        }
        ret.ground_speed_cmps = narrow_to_i16(speed);
        // Field 8: course over ground in degrees.
        let course = match fields.next() {
            Some(t) => t,
            None => {
                return None;
            },
        };
        let course = match parse_fixed_point(course, 10) {
            Some(v) => v,
            None => {
                return None;
            },
        };
        if course < -32768 || course > 32767 {
            return None;
        }
        ret.heading_deci_degrees = narrow_i32_to_i16(course);
        // Field 9: date, not read.
        let _date = match fields.next() {
            Some(t) => t,
            None => {
                return None;
            },
        };
        Some(ret)
    }
}

impl Default for NmeaRmc {
    fn default() -> (r: Self)
        ensures
            r == Self::new(),
    {
        Self::new()
    }
}

} // verus!
