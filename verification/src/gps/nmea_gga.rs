use vstd::prelude::*;

use crate::gps::nmea_parser::{
    nmea_fields, parse_fixed_point, parse_int, parse_nmea_coordinate, spec_parse_fixed_point,
    spec_parse_int, spec_parse_nmea_coordinate, lemma_coordinate_hemisphere, NmeaFields,
};

verus! {

/// The sentence type in a talker field such as `GPGGA`: five bytes ending in `a b c`.
pub open spec fn talker_is(t: Seq<u8>, a: u8, b: u8, c: u8) -> bool {
    t.len() == 5 && t[2] == a && t[3] == b && t[4] == c
}

/// The one-byte field `M` (metres).
pub open spec fn is_metres_unit(t: Seq<u8>) -> bool {
    t.len() == 1 && t[0] == 77
}

/// Global positioning system fix data.
///
/// The fields are: 0 talker and type, 1 UTC time, 2 latitude, 3 N/S, 4 longitude, 5 E/W,
/// 6 fix quality, 7 satellites, 8 HDOP, 9 altitude, 10 altitude units,
/// 11 geoid separation, 12 geoid separation units, 13 DGPS age, 14 DGPS station.
#[derive(Clone, Copy, Debug, PartialEq, Eq, Structural)]
pub struct NmeaGga {
    pub time_of_day_ms: u32,
    pub latitude_degrees_x1e7: i32,
    pub longitude_degrees_x1e7: i32,
    pub fix: u8,
    pub satellite_count: u8,
    pub hdop_x100: i16,
    pub altitude_cm: i32,
    pub geoid_separation_cm: i32,
}

/// What `NmeaGga::parse` returns for a sentence payload.
pub open spec fn spec_parse_gga(record: Seq<u8>) -> Option<NmeaGga> {
    let f = nmea_fields(record);
    if f.len() < 13 || !talker_is(f[0], 71, 71, 65) || f[3].len() != 1 || f[5].len() != 1
        || !is_metres_unit(f[10]) || !is_metres_unit(f[12]) {
        None
    } else {
        let lat = spec_parse_nmea_coordinate(f[2], f[3][0]);
        let lon = spec_parse_nmea_coordinate(f[4], f[5][0]);
        let fix = spec_parse_int(f[6]);
        let sats = spec_parse_int(f[7]);
        let hdop = spec_parse_fixed_point(f[8], 10);
        let alt = spec_parse_fixed_point(f[9], 100);
        let geoid = spec_parse_fixed_point(f[11], 100);
        if lat is Some && lon is Some && fix is Some && fix->0 <= 255 && sats is Some && sats->0
            <= 255 && hdop is Some && 0 <= hdop->0 <= 32767 && alt is Some && geoid is Some {
            Some(
                NmeaGga {
                    time_of_day_ms: 0,
                    latitude_degrees_x1e7: lat->0,
                    longitude_degrees_x1e7: lon->0,
                    fix: fix->0 as u8,
                    satellite_count: sats->0 as u8,
                    hdop_x100: hdop->0 as i16,
                    altitude_cm: alt->0,
                    geoid_separation_cm: geoid->0,
                },
            )
        } else {
            None
        }
    }
}

/// Where each value of a GGA fix comes from: the latitude from field 2 with the hemisphere
/// letter of field 3 (south negative, north non-negative), the longitude from fields 4 and 5,
/// the fix quality and satellite count from fields 6 and 7, HDOP (× 100) from field 8, and the
/// altitude and geoid separation (cm) from fields 9 and 11, both in metres (fields 10 and 12).
pub proof fn lemma_gga_fields(record: Seq<u8>)
    ensures
        spec_parse_gga(record) matches Some(g) ==> {
            let f = nmea_fields(record);
            &&& f.len() >= 13
            &&& talker_is(f[0], 71, 71, 65)
            &&& f[3].len() == 1 && f[5].len() == 1
            &&& g.latitude_degrees_x1e7 == spec_parse_nmea_coordinate(f[2], f[3][0])->0
            &&& g.longitude_degrees_x1e7 == spec_parse_nmea_coordinate(f[4], f[5][0])->0
            &&& (f[3][0] == 83u8 ==> g.latitude_degrees_x1e7 <= 0
                && g.latitude_degrees_x1e7 == -spec_parse_nmea_coordinate(f[2], 78u8)->0)
            &&& (f[3][0] == 78u8 ==> g.latitude_degrees_x1e7 >= 0)
            &&& (f[5][0] == 87u8 ==> g.longitude_degrees_x1e7 <= 0
                && g.longitude_degrees_x1e7 == -spec_parse_nmea_coordinate(f[4], 69u8)->0)
            &&& (f[5][0] == 69u8 ==> g.longitude_degrees_x1e7 >= 0)
            &&& g.fix as int == spec_parse_int(f[6])->0
            &&& g.satellite_count as int == spec_parse_int(f[7])->0
            &&& g.hdop_x100 as int == spec_parse_fixed_point(f[8], 10)->0
            &&& g.altitude_cm == spec_parse_fixed_point(f[9], 100)->0
            &&& g.geoid_separation_cm == spec_parse_fixed_point(f[11], 100)->0
            &&& is_metres_unit(f[10]) && is_metres_unit(f[12])
        },
{
    let f = nmea_fields(record);
    if spec_parse_gga(record) is Some {
        lemma_coordinate_hemisphere(f[2], f[3][0]);
        lemma_coordinate_hemisphere(f[4], f[5][0]);
    }
}

impl NmeaGga {
    #[verifier::allow_in_spec]
    pub fn new() -> Self
        returns
            (Self {
                time_of_day_ms: 0,
                latitude_degrees_x1e7: 0,
                longitude_degrees_x1e7: 0,
                fix: 0,
                satellite_count: 0,
                hdop_x100: 0,
                altitude_cm: 0,
                geoid_separation_cm: 0,
            }),
    {
        Self {
            time_of_day_ms: 0,
            latitude_degrees_x1e7: 0,
            longitude_degrees_x1e7: 0,
            fix: 0,
            satellite_count: 0,
            hdop_x100: 0,
            altitude_cm: 0,
            geoid_separation_cm: 0,
        }
    }

    /// Parses the payload of a GGA sentence (without `$`, checksum and line end).
    /// The UTC time field must be present but is not read; DGPS age and station are not used.
    pub fn parse(record: &[u8]) -> (r: Option<Self>)
        ensures
            r == spec_parse_gga(record@),
    {
        let ghost f = nmea_fields(record@);
        let mut fields = NmeaFields::new(record);
        let talker_id = match fields.next() {
            Some(t) => t,
            None => {
                return None;
            },
        };
        if talker_id.len() != 5 || talker_id[2] != 71 || talker_id[3] != 71 || talker_id[4] != 65 {
            return None;
        }
        let mut ret = Self::new();
        // Field 1: UTC time, not read.
        let _time = match fields.next() {
            Some(t) => t,
            None => {
                return None;
            },
        };
        let latitude = match fields.next() {
            Some(t) => t,
            None => {
                return None;
            },
        };
        let latitude_direction = match fields.next() {
            Some(t) => t,
            None => {
                return None;
            },
        };
        let longitude = match fields.next() {
            Some(t) => t,
            None => {
                return None;
            },
        };
        let longitude_direction = match fields.next() {
            Some(t) => t,
            None => {
                return None;
            },
        };
        if latitude_direction.len() != 1 || longitude_direction.len() != 1 {
            return None;
        }
        ret.latitude_degrees_x1e7 = match parse_nmea_coordinate(latitude, latitude_direction[0]) {
            Some(v) => v,
            None => {
                return None;
            },
        };
        ret.longitude_degrees_x1e7 = match parse_nmea_coordinate(longitude, longitude_direction[0]) {
            Some(v) => v,
            None => {
                return None;
            },
        };
        // Field 6: fix quality.
        let raw = match fields.next() {
            Some(t) => t,
            None => {
                return None;
            },
        };
        let val = match parse_int(raw) {
            Some(v) => v,
            None => {
                return None;
            },
        };
        if val > 255 {
            return None;
        }
        ret.fix = val as u8;
        // Field 7: satellites tracked.
        let raw = match fields.next() {
            Some(t) => t,
            None => {
                return None;
            },
        };
        let val = match parse_int(raw) {
            Some(v) => v,
            None => {
                return None;
            },
        };
        if val > 255 {
            return None;
        }
        ret.satellite_count = val as u8;
        // Field 8: HDOP.
        let hdop = match fields.next() {
            Some(t) => t,
            None => {
                return None;
            },
        };
        let hdop = match parse_fixed_point(hdop, 10) {
            Some(v) => v,
            None => {
                return None;
            },
        };
        if hdop < 0 || hdop > 32767 {
            return None;
        }
        ret.hdop_x100 = hdop as i16;
        // Fields 9 and 10: altitude and units.
        let altitude = match fields.next() {
            Some(t) => t,
            None => {
                return None;
            },
        };
        let altitude_units = match fields.next() {
            Some(t) => t,
            None => {
                return None;
            },
        };
        if altitude_units.len() != 1 || altitude_units[0] != 77 {
            return None;
        }
        ret.altitude_cm = match parse_fixed_point(altitude, 100) {
            Some(v) => v,
            None => {
                return None;
            },
        };
        // Fields 11 and 12: geoid separation and units.
        let geoid_separation = match fields.next() {
            Some(t) => t,
            None => {
                return None;
            },
        };
        let geoid_separation_units = match fields.next() {
            Some(t) => t,
            None => {
                return None;
            },
        };
        if geoid_separation_units.len() != 1 || geoid_separation_units[0] != 77 {
            return None;
        }
        ret.geoid_separation_cm = match parse_fixed_point(geoid_separation, 100) {
            Some(v) => v,
            None => {
                return None;
            },
        };
        Some(ret)
    }
}

impl Default for NmeaGga {
    fn default() -> (r: Self)
        ensures
            r == Self::new(),
    {
        Self::new()
    }
}

} // verus!
