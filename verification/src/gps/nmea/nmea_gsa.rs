use vstd::prelude::*;

use crate::gps::narrow::{int_as_u16, int_as_u8, narrow_to_u8};
use crate::gps::nmea_gga::talker_is;
use crate::gps::nmea_parser::{
    nmea_fields, parse_fixed_point, parse_int, spec_parse_fixed_point, spec_parse_int, NmeaFields,
};

verus! {

/// DOP and active satellites: `GPGSA,A,3,04,05,09,12,24,25,29,31,,,,,1.8,1.0,1.5`.
///
/// The fields are: 0 talker and type, 1 mode (`A` auto, `M` manual), 2 fix type
/// (1 none, 2 2D, 3 3D), 3 to 14 the IDs of the satellites used, 15 PDOP, 16 HDOP,
/// 17 VDOP, 18 the GNSS system (optional, not read).
#[derive(Clone, Copy, Debug, PartialEq, Eq, Structural)]
pub struct NmeaGsa {
    pub longitude_degrees_x1e7: i32,
    pub latitude_degrees_x1e7: i32,
    pub altitude_cm: i32,
    pub geoid_separation_cm: i32,
    pub time_of_week_ms: u32,
    pub velocity_north_cmps: i16,
    pub velocity_east_cmps: i16,
    pub velocity_down_cmps: i16,
    pub speed3d_cmps: i16,
    pub ground_speed_cmps: i16,
    pub heading_deci_degrees: i16,
    /// GGA: satellites tracked.
    pub satellite_count: u8,
    /// GSA: satellites used in the solution.
    pub satellites_used: u8,
    /// GGA fix quality.
    pub fix: u8,
    /// GSA: 1, 2 or 3.
    pub fix_type: u8,
    pub is_healthy: u8,
    pub hdop: u16,
    pub pdop: u16,
    pub vdop: u16,
    pub update: u8,
}

/// A satellite-ID field: empty, or a number that fits a `u8`.
pub open spec fn is_satellite_slot(f: Seq<u8>) -> bool {
    f.len() == 0 || (spec_parse_int(f) is Some && spec_parse_int(f)->0 <= 255)
}

/// How many of the fields are non-empty.
pub open spec fn nonempty_count(fs: Seq<Seq<u8>>) -> nat
    decreases fs.len(),
{
    if fs.len() == 0 {
        0
    } else {
        nonempty_count(fs.drop_last()) + if fs.last().len() > 0 {
            1nat
        } else {
            0nat
        }
    }
}

/// A dilution-of-precision field: a non-negative fixed-point value ×10 that fits a `u16`.
pub open spec fn dop_field(f: Seq<u8>) -> Option<u16> {
    let v = spec_parse_fixed_point(f, 10);
    if v is Some && 0 <= v->0 <= u16::MAX {
        Some(int_as_u16(v->0 as int))
    } else {
        None
    }
}

/// What `NmeaGsa::parse` returns for a sentence payload.
pub open spec fn spec_parse_gsa(record: Seq<u8>) -> Option<NmeaGsa> {
    let f = nmea_fields(record);
    if f.len() < 18 || !talker_is(f[0], 71, 83, 65) || f[1].len() != 1 || (f[1][0] != 65 && f[1][0]
        != 77) {
        None
    } else {
        let fix_type = spec_parse_int(f[2]);
        if fix_type is Some && 1 <= fix_type->0 <= 3 && (forall|i: int|
            3 <= i < 15 ==> is_satellite_slot(#[trigger] f[i])) && dop_field(f[15]) is Some
            && dop_field(f[16]) is Some && dop_field(f[17]) is Some {
            Some(
                NmeaGsa {
                    fix_type: int_as_u8(fix_type->0 as int),
                    satellites_used: int_as_u8(nonempty_count(f.subrange(3, 15)) as int),
                    pdop: dop_field(f[15])->0,
                    hdop: dop_field(f[16])->0,
                    vdop: dop_field(f[17])->0,
                    ..NmeaGsa::new()
                },
            )
        } else {
            None
        }
    }
}

proof fn lemma_nonempty_count_bound(fs: Seq<Seq<u8>>)
    ensures
        nonempty_count(fs) <= fs.len(),
    decreases fs.len(),
{
    if fs.len() > 0 {
        lemma_nonempty_count_bound(fs.drop_last());
    }
}

impl NmeaGsa {
    #[verifier::allow_in_spec]
    pub fn new() -> Self
        returns
            (Self {
                longitude_degrees_x1e7: 0,
                latitude_degrees_x1e7: 0,
                altitude_cm: 0,
                geoid_separation_cm: 0,
                time_of_week_ms: 0,
                velocity_north_cmps: 0,
                velocity_east_cmps: 0,
                velocity_down_cmps: 0,
                speed3d_cmps: 0,
                ground_speed_cmps: 0,
                heading_deci_degrees: 0,
                satellite_count: 0,
                satellites_used: 0,
                fix: 0,
                fix_type: 0,
                is_healthy: 0,
                hdop: 0,
                pdop: 0,
                vdop: 0,
                update: 0,
            }),
    {
        Self {
            longitude_degrees_x1e7: 0,
            latitude_degrees_x1e7: 0,
            altitude_cm: 0,
            geoid_separation_cm: 0,
            time_of_week_ms: 0,
            velocity_north_cmps: 0,
            velocity_east_cmps: 0,
            velocity_down_cmps: 0,
            speed3d_cmps: 0,
            ground_speed_cmps: 0,
            heading_deci_degrees: 0,
            satellite_count: 0,
            satellites_used: 0,
            fix: 0,
            fix_type: 0,
            is_healthy: 0,
            hdop: 0,
            pdop: 0,
            vdop: 0,
            update: 0,
        }
    }

    /// One dilution-of-precision field.
    fn parse_dop(raw: &[u8]) -> (r: Option<u16>)
        ensures
            r == dop_field(raw@),
    {
        match parse_fixed_point(raw, 10) {
            Some(v) => {
                if v < 0 || v > 65535 {
                    None
                } else {
                    Some(v as u16)
                }
            },
            None => None,
        }
    }

    /// Parses the payload of a GSA sentence. Every satellite slot must be empty or a number
    /// that fits a `u8`; the non-empty ones are counted as satellites used.
    pub fn parse(record: &[u8]) -> (r: Option<Self>)
        ensures
            r == spec_parse_gsa(record@),
    {
        let ghost f = nmea_fields(record@);
        let mut fields = NmeaFields::new(record);
        let talker_id = match fields.next() {
            Some(t) => t,
            None => {
                return None;
            },
        };
        if talker_id.len() != 5 || talker_id[2] != 71 || talker_id[3] != 83 || talker_id[4] != 65 {
            return None;
        }
        let mut ret = Self::new();
        let mode = match fields.next() {
            Some(t) => t,
            None => {
                return None;
            },
        };
        if mode.len() != 1 || (mode[0] != 65 && mode[0] != 77) {
            return None;
        }
        let raw = match fields.next() {
            Some(t) => t,
            None => {
                return None;
            },
        };
        let fix_type = match parse_int(raw) {
            Some(v) => v,
            None => {
                return None;
            },
        };
        if fix_type > 255 {
            return None;
        }
        ret.fix_type = narrow_to_u8(fix_type);
        if ret.fix_type < 1 || ret.fix_type > 3 {
            return None;
        }
        let mut slot: usize = 0;
        while slot < 12
            invariant
                0 <= slot <= 12,
                f == nmea_fields(record@),
                fields@.fields == f,
                fields@.index == 3 + slot,
                ret.satellites_used as int == nonempty_count(f.subrange(3, 3 + slot as int)),
                forall|i: int| 3 <= i < 3 + slot ==> is_satellite_slot(#[trigger] f[i]),
                ret == (NmeaGsa { fix_type: ret.fix_type, satellites_used: ret.satellites_used, ..NmeaGsa::new() }),
                1 <= ret.fix_type <= 3,
                ret.fix_type == spec_parse_int(f[2])->0,
                spec_parse_int(f[2]) is Some,
            decreases 12 - slot,
        {
            let satellite = match fields.next() {
                Some(t) => t,
                None => {
                    return None;
                },
            };
            proof {
                let a = f.subrange(3, 3 + slot as int);
                let b = f.subrange(3, 3 + slot as int + 1);
                assert(b.drop_last() =~= a);
                assert(b.last() == f[3 + slot as int]);
                lemma_nonempty_count_bound(a);
            }
            if satellite.len() > 0 {
                let satellite_id = match parse_int(satellite) {
                    Some(v) => v,
                    None => {
                        return None;
                    },
                };
                if satellite_id > 255 {
                    return None;
                }
                ret.satellites_used = ret.satellites_used + 1;
            }
            slot = slot + 1;
        }
        let raw = match fields.next() {
            Some(t) => t,
            None => {
                return None;
            },
        };
        ret.pdop = match Self::parse_dop(raw) {
            Some(v) => v,
            None => {
                return None;
            },
        };
        let raw = match fields.next() {
            Some(t) => t,
            None => {
                return None;
            },
        };
        ret.hdop = match Self::parse_dop(raw) {
            Some(v) => v,
            None => {
                return None;
            },
        };
        let raw = match fields.next() {
            Some(t) => t,
            None => {
                return None;
            },
        };
        ret.vdop = match Self::parse_dop(raw) {
            Some(v) => v,
            None => {
                return None;
            },
        };
        Some(ret)
    }
}

impl Default for NmeaGsa {
    fn default() -> (r: Self)
        ensures
            r == Self::new(),
    {
        Self::new()
    }
}

/// Where each value of a GSA report comes from: the fix type (1 to 3) from field 2, the number
/// of satellites used from how many of the twelve slots in fields 3 to 14 are filled, and
/// PDOP, HDOP and VDOP (× 10) from fields 15, 16 and 17; field 1 is the mode letter `A` or `M`.
pub proof fn lemma_gsa_fields(record: Seq<u8>)
    ensures
        spec_parse_gsa(record) matches Some(g) ==> {
            let f = nmea_fields(record);
            &&& f.len() >= 18
            &&& talker_is(f[0], 71, 83, 65)
            &&& f[1].len() == 1 && (f[1][0] == 65u8 || f[1][0] == 77u8)
            &&& 1 <= g.fix_type <= 3
            &&& g.fix_type == spec_parse_int(f[2])->0
            &&& g.satellites_used == nonempty_count(f.subrange(3, 15))
            &&& g.pdop == spec_parse_fixed_point(f[15], 10)->0
            &&& g.hdop == spec_parse_fixed_point(f[16], 10)->0
            &&& g.vdop == spec_parse_fixed_point(f[17], 10)->0
        },
{
    let f = nmea_fields(record);
    if spec_parse_gsa(record) is Some {
        lemma_nonempty_count_bound(f.subrange(3, 15));
    }
}

} // verus!
