use vstd::prelude::*;
use crate::gps::ubx_nav::{UbxNavId, UBX_NAV_CLASS};
use crate::gps::ubx_parser::{le_i32, le_u32, le_value4, lemma_le_unsigned, Parse};

verus! {

/// Velocity solution in NED frame.
#[derive(Clone, Copy, Debug, PartialEq, Eq, Structural)]
pub struct UbxNavVelNed {
    pub time_of_week_ms: u32,
    pub velocity_north_cmps: i32,
    pub velocity_east_cmps: i32,
    pub velocity_down_cmps: i32,
    pub speed_cmps: u32,
    pub ground_speed_cmps: u32,
    pub heading_degrees_x1e5: i32,
    pub speed_accuracy_cmps: u32,
    pub heading_accuracy_degrees_x1e5: u32,
}

impl UbxNavVelNed {
    pub const CLASS: u8 = UBX_NAV_CLASS;
    pub const ID: u8 = UbxNavId::VEL_NED;
    pub const PAYLOAD_LEN: usize = 36;

    #[verifier::allow_in_spec]
    pub fn new() -> Self
        returns
            (Self {
                time_of_week_ms: 0,
                velocity_north_cmps: 0,
                velocity_east_cmps: 0,
                velocity_down_cmps: 0,
                speed_cmps: 0,
                ground_speed_cmps: 0,
                heading_degrees_x1e5: 0,
                speed_accuracy_cmps: 0,
                heading_accuracy_degrees_x1e5: 0,
            }),
    {
        Self {
            time_of_week_ms: 0,
            velocity_north_cmps: 0,
            velocity_east_cmps: 0,
            velocity_down_cmps: 0,
            speed_cmps: 0,
            ground_speed_cmps: 0,
            heading_degrees_x1e5: 0,
            speed_accuracy_cmps: 0,
            heading_accuracy_degrees_x1e5: 0,
        }
    }

    /// The message that a 36-byte payload encodes.
    pub open spec fn from_payload(p: Seq<u8>) -> Option<Self> {
        if p.len() == 36 {
            Some(
                Self {
                    time_of_week_ms: le_u32(p, 0),
                    velocity_north_cmps: le_i32(p, 4),
                    velocity_east_cmps: le_i32(p, 8),
                    velocity_down_cmps: le_i32(p, 12),
                    speed_cmps: le_u32(p, 16),
                    ground_speed_cmps: le_u32(p, 20),
                    heading_degrees_x1e5: le_i32(p, 24),
                    speed_accuracy_cmps: le_u32(p, 28),
                    heading_accuracy_degrees_x1e5: le_u32(p, 32),
                },
            )
        } else {
            None
        }
    }

    pub fn parse(payload: &[u8]) -> (r: Option<UbxNavVelNed>)
        ensures
            r == Self::from_payload(payload@),
    {
        if payload.len() != Self::PAYLOAD_LEN {
            return None;
        }
        Some(
            UbxNavVelNed {
                time_of_week_ms: Parse::try_read_u32(&payload[0..4])?,
                velocity_north_cmps: Parse::try_read_i32(&payload[4..8])?,
                velocity_east_cmps: Parse::try_read_i32(&payload[8..12])?,
                velocity_down_cmps: Parse::try_read_i32(&payload[12..16])?,
                speed_cmps: Parse::try_read_u32(&payload[16..20])?,
                ground_speed_cmps: Parse::try_read_u32(&payload[20..24])?,
                heading_degrees_x1e5: Parse::try_read_i32(&payload[24..28])?,
                speed_accuracy_cmps: Parse::try_read_u32(&payload[28..32])?,
                heading_accuracy_degrees_x1e5: Parse::try_read_u32(&payload[32..36])?,
            },
        )
    }
}

/// The NAV-VELNED layout: a payload is read exactly when it has 36 bytes; iTOW, 3D speed,
/// ground speed and the two accuracies are the unsigned little-endian words at bytes 0, 16,
/// 20, 28 and 32, and the north, east and down velocities and the heading the signed words at
/// bytes 4, 8, 12 and 24.
pub proof fn lemma_nav_velned_layout(p: Seq<u8>)
    ensures
        UbxNavVelNed::from_payload(p) is Some <==> p.len() == 36,
        UbxNavVelNed::from_payload(p) matches Some(m) ==> {
            &&& m.time_of_week_ms == le_value4(p, 0)
            &&& m.velocity_north_cmps == le_i32(p, 4)
            &&& m.velocity_east_cmps == le_i32(p, 8)
            &&& m.velocity_down_cmps == le_i32(p, 12)
            &&& m.speed_cmps == le_value4(p, 16)
            &&& m.ground_speed_cmps == le_value4(p, 20)
            &&& m.heading_degrees_x1e5 == le_i32(p, 24)
            &&& m.speed_accuracy_cmps == le_value4(p, 28)
            &&& m.heading_accuracy_degrees_x1e5 == le_value4(p, 32)
        },
{
    if p.len() == 36 {
        lemma_le_unsigned(p, 0);
        lemma_le_unsigned(p, 16);
        lemma_le_unsigned(p, 20);
        lemma_le_unsigned(p, 28);
        lemma_le_unsigned(p, 32);
    }
}

impl Default for UbxNavVelNed {
    fn default() -> (r: Self)
        ensures
            r == Self::new(),
    {
        Self::new()
    }
}

} // verus!
