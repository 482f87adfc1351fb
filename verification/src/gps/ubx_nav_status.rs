use vstd::prelude::*;
use crate::gps::ubx::ubx_ids::UbxClassId;
use crate::gps::ubx_nav::UbxNavId;
use crate::gps::ubx_parser::{le_u32, le_value4, lemma_le_unsigned, Parse};

verus! {

/// Receiver navigation status.
#[derive(Clone, Copy, Debug, PartialEq, Eq, Structural)]
pub struct UbxNavStatus {
    pub time_of_week_ms: u32,
    pub gps_fix: u8,
    pub flags: u8,
    pub fix_status: u8,
    pub flags2: u8,
    pub time_to_first_fix_ms: u32,
    pub time_since_startup_ms: u32,
}

impl UbxNavStatus {
    pub const CLASS: UbxClassId = UbxClassId::Nav;
    pub const ID: u8 = UbxNavId::STATUS;
    pub const PAYLOAD_LEN_U16: u16 = 16;
    pub const PAYLOAD_LEN: usize = 16;
    pub const FRAME_LEN: usize = 24;

    #[verifier::allow_in_spec]
    pub fn new() -> Self
        returns
            (Self {
                time_of_week_ms: 0,
                gps_fix: 0,
                flags: 0,
                fix_status: 0,
                flags2: 0,
                time_to_first_fix_ms: 0,
                time_since_startup_ms: 0,
            }),
    {
        Self {
            time_of_week_ms: 0,
            gps_fix: 0,
            flags: 0,
            fix_status: 0,
            flags2: 0,
            time_to_first_fix_ms: 0,
            time_since_startup_ms: 0,
        }
    }

    /// The message that a 16-byte payload encodes.
    pub open spec fn from_payload(p: Seq<u8>) -> Option<Self> {
        if p.len() == 16 {
            Some(
                Self {
                    time_of_week_ms: le_u32(p, 0),
                    gps_fix: p[4],
                    flags: p[5],
                    fix_status: p[6],
                    flags2: p[7],
                    time_to_first_fix_ms: le_u32(p, 8),
                    time_since_startup_ms: le_u32(p, 12),
                },
            )
        } else {
            None
        }
    }

    pub fn parse(payload: &[u8]) -> (r: Option<UbxNavStatus>)
        ensures
            r == Self::from_payload(payload@),
    {
        if payload.len() != Self::PAYLOAD_LEN {
            return None;
        }
        Some(
            UbxNavStatus {
                time_of_week_ms: Parse::try_read_u32(&payload[0..4])?,
                gps_fix: payload[4],
                flags: payload[5],
                fix_status: payload[6],
                flags2: payload[7],
                time_to_first_fix_ms: Parse::try_read_u32(&payload[8..12])?,
                time_since_startup_ms: Parse::try_read_u32(&payload[12..16])?,
            },
        )
    }
}

impl Default for UbxNavStatus {
    fn default() -> (r: Self)
        ensures
            r == Self::new(),
    {
        Self::new()
    }
}

/// The NAV-STATUS layout: a payload is read exactly when it has 16 bytes; iTOW at byte 0, the
/// fix type, flags, fix status and second flags at bytes 4 to 7, time to first fix at 8 and time
/// since startup at 12, words as the numeric value of their little-endian bytes.
pub proof fn lemma_nav_status_layout(p: Seq<u8>)
    ensures
        UbxNavStatus::from_payload(p) is Some <==> p.len() == 16,
        UbxNavStatus::from_payload(p) matches Some(m) ==> {
            &&& m.time_of_week_ms == le_value4(p, 0)
            &&& m.gps_fix == p[4]
            &&& m.flags == p[5]
            &&& m.fix_status == p[6]
            &&& m.flags2 == p[7]
            &&& m.time_to_first_fix_ms == le_value4(p, 8)
            &&& m.time_since_startup_ms == le_value4(p, 12)
        },
{
    if p.len() == 16 {
        lemma_le_unsigned(p, 0);
        lemma_le_unsigned(p, 8);
        lemma_le_unsigned(p, 12);
    }
}

} // verus!
