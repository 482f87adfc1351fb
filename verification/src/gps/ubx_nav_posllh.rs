use vstd::prelude::*;
use crate::gps::ubx_nav::{UbxNavId, UBX_NAV_CLASS};
use crate::gps::ubx_parser::{le_i32, le_u32, le_value4, lemma_le_unsigned, Parse};

verus! {

/// Geodetic position solution.
#[derive(Clone, Copy, Debug, PartialEq, Eq, Structural)]
pub struct UbxNavPosLlh {
    pub time_of_week_ms: u32,
    pub longitude_degrees_x1e7: i32,
    pub latitude_degrees_x1e7: i32,
    pub height_mm: i32,
}

impl UbxNavPosLlh {
    pub const CLASS: u8 = UBX_NAV_CLASS;
    pub const ID: u8 = UbxNavId::POS_LLH;
    pub const PAYLOAD_LEN: usize = 28;

    #[verifier::allow_in_spec]
    pub fn new() -> Self
        returns
            (Self {
                time_of_week_ms: 0,
                longitude_degrees_x1e7: 0,
                latitude_degrees_x1e7: 0,
                height_mm: 0,
            }),
    {
        Self { time_of_week_ms: 0, longitude_degrees_x1e7: 0, latitude_degrees_x1e7: 0, height_mm: 0 }
    }

    /// The message that a 28-byte payload encodes.
    pub open spec fn from_payload(p: Seq<u8>) -> Option<Self> {
        if p.len() == 28 {
            Some(
                Self {
                    time_of_week_ms: le_u32(p, 0),
                    longitude_degrees_x1e7: le_i32(p, 4),
                    latitude_degrees_x1e7: le_i32(p, 8),
                    height_mm: le_i32(p, 12),
                },
            )
        } else {
            None
        }
    }

    pub fn parse(payload: &[u8]) -> (r: Option<UbxNavPosLlh>)
        ensures
            r == Self::from_payload(payload@),
    {
        if payload.len() != Self::PAYLOAD_LEN {
            return None;
        }
        Some(
            UbxNavPosLlh {
                time_of_week_ms: Parse::try_read_u32(&payload[0..4])?,
                longitude_degrees_x1e7: Parse::try_read_i32(&payload[4..8])?,
                latitude_degrees_x1e7: Parse::try_read_i32(&payload[8..12])?,
                height_mm: Parse::try_read_i32(&payload[12..28])?,
            },
        )
    }
}

impl Default for UbxNavPosLlh {
    fn default() -> (r: Self)
        ensures
            r == Self::new(),
    {
        Self::new()
    }
}

/// The NAV-POSLLH layout: a payload is read exactly when it has 28 bytes; iTOW at byte 0, then
/// longitude, latitude and height above the ellipsoid as signed little-endian words at bytes 4,
/// 8 and 12.
pub proof fn lemma_nav_posllh_layout(p: Seq<u8>)
    ensures
        UbxNavPosLlh::from_payload(p) is Some <==> p.len() == 28,
        UbxNavPosLlh::from_payload(p) matches Some(m) ==> {
            &&& m.time_of_week_ms == le_value4(p, 0)
            &&& m.longitude_degrees_x1e7 == le_i32(p, 4)
            &&& m.latitude_degrees_x1e7 == le_i32(p, 8)
            &&& m.height_mm == le_i32(p, 12)
        },
{
    if p.len() == 28 {
        lemma_le_unsigned(p, 0);
    }
}

} // verus!
