use vstd::prelude::*;
use crate::gps::ubx_frame::{
    lemma_le_i32_roundtrip, lemma_le_u16_roundtrip, lemma_le_u32_roundtrip, write_i32, write_u16,
    write_u32,
};
use crate::gps::ubx_nav::{UbxNavId, UBX_NAV_CLASS};
use crate::gps::ubx_parser::{le_i32, le_u16, le_u32, le_value2, le_value4, lemma_le_unsigned, Parse};

verus! {

// The NAV-PVT payload has a fixed binary layout (offsets in bytes):
//  0 iTOW, 4 year, 6 month, 7 day, 8 hour, 9 minute, 10 second, 11 validity flags,
// 12 time accuracy, 16 nanoseconds, 20 fix type, 21 flags, 22 flags2, 23 satellites used,
// 24 longitude, 28 latitude, 32 height above ellipsoid, 36 height above mean sea level,
// 40 horizontal accuracy, 44 vertical accuracy, 48 velocity north, 52 velocity east,
// 56 velocity down, 60 ground speed, 64 heading of motion; bytes 68 to 91 are not read.

/// Navigation position velocity time solution.
#[derive(Clone, Copy, Debug, PartialEq, Eq, Structural)]
pub struct UbxNavPvt {
    pub time_of_week_ms: u32,
    pub year: u16,
    pub month: u8,
    pub day: u8,
    pub hour: u8,
    pub minute: u8,
    pub second: u8,
    pub valid: u8,
    pub time_accuracy_ns: u32,
    pub nano: i32,
    pub fix_type: u8,
    pub flags: u8,
    pub flags2: u8,
    pub satellite_count: u8,
    pub longitude_degrees_x1e7: i32,
    pub latitude_degrees_x1e7: i32,
    pub height_ellipsoid_mm: i32,
    pub height_msl_mm: i32,
    pub horizontal_accuracy_mm: u32,
    pub vertical_accuracy_mm: u32,
    pub velocity_north_mmps: i32,
    pub velocity_east_mmps: i32,
    pub velocity_down_mmps: i32,
    pub ground_speed_mmps: i32,
    pub heading_degrees_x1e5: u32,
}

impl UbxNavPvt {
    pub const CLASS: u8 = UBX_NAV_CLASS;
    pub const ID: u8 = UbxNavId::PVT;
    pub const PAYLOAD_LEN: usize = 92;

    #[verifier::allow_in_spec]
    pub fn new() -> Self
        returns
            (Self {
                time_of_week_ms: 0,
                year: 0,
                month: 0,
                day: 0,
                hour: 0,
                minute: 0,
                second: 0,
                valid: 0,
                time_accuracy_ns: 0,
                nano: 0,
                fix_type: 0,
                flags: 0,
                flags2: 0,
                satellite_count: 0,
                longitude_degrees_x1e7: 0,
                latitude_degrees_x1e7: 0,
                height_ellipsoid_mm: 0,
                height_msl_mm: 0,
                horizontal_accuracy_mm: 0,
                vertical_accuracy_mm: 0,
                velocity_north_mmps: 0,
                velocity_east_mmps: 0,
                velocity_down_mmps: 0,
                ground_speed_mmps: 0,
                heading_degrees_x1e5: 0,
            }),
    {
        Self {
            time_of_week_ms: 0,
            year: 0,
            month: 0,
            day: 0,
            hour: 0,
            minute: 0,
            second: 0,
            valid: 0,
            time_accuracy_ns: 0,
            nano: 0,
            fix_type: 0,
            flags: 0,
            flags2: 0,
            satellite_count: 0,
            longitude_degrees_x1e7: 0,
            latitude_degrees_x1e7: 0,
            height_ellipsoid_mm: 0,
            height_msl_mm: 0,
            horizontal_accuracy_mm: 0,
            vertical_accuracy_mm: 0,
            velocity_north_mmps: 0,
            velocity_east_mmps: 0,
            velocity_down_mmps: 0,
            ground_speed_mmps: 0,
            heading_degrees_x1e5: 0,
        }
    }

    /// The message that a 92-byte payload encodes.
    pub open spec fn from_payload(p: Seq<u8>) -> Option<Self> {
        if p.len() == 92 {
            Some(
                Self {
                    time_of_week_ms: le_u32(p, 0),
                    year: le_u16(p, 4),
                    month: p[6],
                    day: p[7],
                    hour: p[8],
                    minute: p[9],
                    second: p[10],
                    valid: p[11],
                    time_accuracy_ns: le_u32(p, 12),
                    nano: le_i32(p, 16),
                    fix_type: p[20],
                    flags: p[21],
                    flags2: p[22],
                    satellite_count: p[23],
                    longitude_degrees_x1e7: le_i32(p, 24),
                    latitude_degrees_x1e7: le_i32(p, 28),
                    height_ellipsoid_mm: le_i32(p, 32),
                    height_msl_mm: le_i32(p, 36),
                    horizontal_accuracy_mm: le_u32(p, 40),
                    vertical_accuracy_mm: le_u32(p, 44),
                    velocity_north_mmps: le_i32(p, 48),
                    velocity_east_mmps: le_i32(p, 52),
                    velocity_down_mmps: le_i32(p, 56),
                    ground_speed_mmps: le_i32(p, 60),
                    heading_degrees_x1e5: le_u32(p, 64),
                },
            )
        } else {
            None
        }
    }

    pub fn parse(payload: &[u8]) -> (r: Option<UbxNavPvt>)
        ensures
            r == Self::from_payload(payload@),
    {
        if payload.len() != Self::PAYLOAD_LEN {
            return None;
        }
        Some(
            UbxNavPvt {
                time_of_week_ms: Parse::try_read_u32(&payload[0..4])?,
                year: Parse::try_read_u16(&payload[4..6])?,
                month: payload[6],
                day: payload[7],
                hour: payload[8],
                minute: payload[9],
                second: payload[10],
                valid: payload[11],
                time_accuracy_ns: Parse::try_read_u32(&payload[12..16])?,
                nano: Parse::try_read_i32(&payload[16..20])?,
                fix_type: payload[20],
                flags: payload[21],
                flags2: payload[22],
                satellite_count: payload[23],
                longitude_degrees_x1e7: Parse::try_read_i32(&payload[24..28])?,
                latitude_degrees_x1e7: Parse::try_read_i32(&payload[28..32])?,
                height_ellipsoid_mm: Parse::try_read_i32(&payload[32..36])?,
                height_msl_mm: Parse::try_read_i32(&payload[36..40])?,
                horizontal_accuracy_mm: Parse::try_read_u32(&payload[40..44])?,
                vertical_accuracy_mm: Parse::try_read_u32(&payload[44..48])?,
                velocity_north_mmps: Parse::try_read_i32(&payload[48..52])?,
                velocity_east_mmps: Parse::try_read_i32(&payload[52..56])?,
                velocity_down_mmps: Parse::try_read_i32(&payload[56..60])?,
                ground_speed_mmps: Parse::try_read_i32(&payload[60..64])?,
                heading_degrees_x1e5: Parse::try_read_u32(&payload[64..68])?,
            },
        )
    }
}

impl Default for UbxNavPvt {
    fn default() -> (r: Self)
        ensures
            r == Self::new(),
    {
        Self::new()
    }
}

/// The solution that the sample payload carries: 2026-08-18 12:34:56.789 UTC, a 3D fix
/// with 12 satellites, at 51.2345678 N 1.2345678 W.
pub open spec fn realistic_nav_pvt() -> UbxNavPvt {
    UbxNavPvt {
            time_of_week_ms: 45296789,
        year: 2026,
        month: 8,
        day: 18,
        hour: 12,
        minute: 34,
        second: 56,
        valid: 7,
        time_accuracy_ns: 0,
        nano: 0,
        fix_type: 3,
        flags: 1,
        flags2: 0,
        satellite_count: 12,
        longitude_degrees_x1e7: -12345678i32,
        latitude_degrees_x1e7: 512345678,
        height_ellipsoid_mm: 123450,
        height_msl_mm: 100000,
        horizontal_accuracy_mm: 500,
        vertical_accuracy_mm: 800,
        velocity_north_mmps: 1230,
        velocity_east_mmps: -450i32,
        velocity_down_mmps: 120,
        ground_speed_mmps: 1310,
        heading_degrees_x1e5: 1234560,
    }
}

/// A sample NAV-PVT payload, as a receiver with a good 3D fix sends it.
#[verifier::spinoff_prover]
#[verifier::rlimit(80)]
pub fn make_realistic_nav_pvt_payload() -> (r: [u8; 92])
    ensures
        UbxNavPvt::from_payload(r@) == Some(realistic_nav_pvt()),
        r@.skip(68) == Seq::new(24, |i: int| 0u8),
{
    let mut payload = [0u8; 92];
    // iTOW: 12:34:56.789
    write_u32(&mut payload, 0, 45_296_789);
    // UTC: 2026-08-18 12:34:56
    write_u16(&mut payload, 4, 2026);
    payload[6] = 8;
    payload[7] = 18;
    payload[8] = 12;
    payload[9] = 34;
    payload[10] = 56;
    // Time valid, 3D fix, GNSS fix OK, 12 satellites.
    payload[11] = 0x07;
    payload[20] = 3;
    payload[21] = 0x01;
    payload[23] = 12;
    // Longitude -1.2345678 degrees, latitude 51.2345678 degrees.
    write_i32(&mut payload, 24, -12_345_678);
    write_i32(&mut payload, 28, 512_345_678);
    // Height above ellipsoid 123.450 m, above mean sea level 100.000 m.
    write_i32(&mut payload, 32, 123_450);
    write_i32(&mut payload, 36, 100_000);
    // Horizontal and vertical accuracy.
    write_u32(&mut payload, 40, 500);
    write_u32(&mut payload, 44, 800);
    // Velocity north, east, down and ground speed, in mm/s.
    write_i32(&mut payload, 48, 1_230);
    write_i32(&mut payload, 52, -450);
    write_i32(&mut payload, 56, 120);
    write_i32(&mut payload, 60, 1_310);
    // Heading 12.3456 degrees.
    write_u32(&mut payload, 64, 1_234_560);
    proof {
        let ghost p = payload@;
        assert(le_u32(p, 0) == 45296789u32) by { lemma_le_u32_roundtrip(p, 0, 45296789u32); }
        assert(le_u16(p, 4) == 2026u16) by { lemma_le_u16_roundtrip(p, 4, 2026u16); }
        assert(le_i32(p, 24) == -12345678i32) by { lemma_le_i32_roundtrip(p, 24, -12345678i32); }
        assert(le_i32(p, 28) == 512345678i32) by { lemma_le_i32_roundtrip(p, 28, 512345678i32); }
        assert(le_i32(p, 32) == 123450i32) by { lemma_le_i32_roundtrip(p, 32, 123450i32); }
        assert(le_i32(p, 36) == 100000i32) by { lemma_le_i32_roundtrip(p, 36, 100000i32); }
        assert(le_u32(p, 40) == 500u32) by { lemma_le_u32_roundtrip(p, 40, 500u32); }
        assert(le_u32(p, 44) == 800u32) by { lemma_le_u32_roundtrip(p, 44, 800u32); }
        assert(le_i32(p, 48) == 1230i32) by { lemma_le_i32_roundtrip(p, 48, 1230i32); }
        assert(le_i32(p, 52) == -450i32) by { lemma_le_i32_roundtrip(p, 52, -450i32); }
        assert(le_i32(p, 56) == 120i32) by { lemma_le_i32_roundtrip(p, 56, 120i32); }
        assert(le_i32(p, 60) == 1310i32) by { lemma_le_i32_roundtrip(p, 60, 1310i32); }
        assert(le_u32(p, 64) == 1234560u32) by { lemma_le_u32_roundtrip(p, 64, 1234560u32); }
        assert(le_u32(p, 12) == 0u32) by { lemma_le_u32_roundtrip(p, 12, 0u32); }
        assert(le_i32(p, 16) == 0i32) by { lemma_le_i32_roundtrip(p, 16, 0i32); }
        assert(payload@.skip(68) =~= Seq::new(24, |i: int| 0u8));
    }
    payload
}

/// The NAV-PVT layout: a payload is read exactly when it has 92 bytes; iTOW at byte 0, the UTC
/// date and time at 4 to 10, validity at 11, time accuracy at 12, nanoseconds at 16, fix type,
/// flags and satellite count at 20 to 23, longitude and latitude at 24 and 28, ellipsoid and
/// mean-sea-level heights at 32 and 36, the accuracies at 40 and 44, the north, east and down
/// velocities at 48, 52 and 56, ground speed at 60 and heading of motion at 64.
pub proof fn lemma_nav_pvt_layout(p: Seq<u8>)
    ensures
        UbxNavPvt::from_payload(p) is Some <==> p.len() == 92,
        UbxNavPvt::from_payload(p) matches Some(m) ==> {
            &&& m.time_of_week_ms == le_value4(p, 0)
            &&& m.year == le_value2(p, 4)
            &&& m.month == p[6]
            &&& m.day == p[7]
            &&& m.hour == p[8]
            &&& m.minute == p[9]
            &&& m.second == p[10]
            &&& m.valid == p[11]
            &&& m.time_accuracy_ns == le_value4(p, 12)
            &&& m.nano == le_i32(p, 16)
            &&& m.fix_type == p[20]
            &&& m.flags == p[21]
            &&& m.flags2 == p[22]
            &&& m.satellite_count == p[23]
            &&& m.longitude_degrees_x1e7 == le_i32(p, 24)
            &&& m.latitude_degrees_x1e7 == le_i32(p, 28)
            &&& m.height_ellipsoid_mm == le_i32(p, 32)
            &&& m.height_msl_mm == le_i32(p, 36)
            &&& m.horizontal_accuracy_mm == le_value4(p, 40)
            &&& m.vertical_accuracy_mm == le_value4(p, 44)
            &&& m.velocity_north_mmps == le_i32(p, 48)
            &&& m.velocity_east_mmps == le_i32(p, 52)
            &&& m.velocity_down_mmps == le_i32(p, 56)
            &&& m.ground_speed_mmps == le_i32(p, 60)
            &&& m.heading_degrees_x1e5 == le_value4(p, 64)
        },
{
    if p.len() == 92 {
        lemma_le_unsigned(p, 0);
        lemma_le_unsigned(p, 4);
        lemma_le_unsigned(p, 12);
        lemma_le_unsigned(p, 40);
        lemma_le_unsigned(p, 44);
        lemma_le_unsigned(p, 64);
    }
}

} // verus!
