use vstd::prelude::*;
use crate::gps::ubx::ubx_ids::{UbxClassId, UbxNavId};
use crate::gps::ubx_parser::{le_u16, le_u32, le_value2, le_value4, lemma_le_unsigned, Parse};

verus! {

/// Dilution of precision.
#[derive(Clone, Copy, Debug, PartialEq, Eq, Structural)]
pub struct UbxNavDop {
    pub time_of_week_ms: u32,
    pub gdop_x100: u16,
    pub tdop_x100: u16,
    pub pdop_x100: u16,
    pub vdop_x100: u16,
    pub hdop_x100: u16,
    pub ndop_x100: u16,
    pub edop_x100: u16,
}

impl UbxNavDop {
    pub const CLASS: UbxClassId = UbxClassId::Nav;
    pub const ID: u8 = UbxNavId::DOP;
    pub const PAYLOAD_LEN_U16: u16 = 18;
    pub const PAYLOAD_LEN: usize = 18;
    pub const FRAME_LEN: usize = 26;

    #[verifier::allow_in_spec]
    pub fn new() -> Self
        returns
            (Self {
                time_of_week_ms: 0,
                gdop_x100: 0,
                tdop_x100: 0,
                pdop_x100: 0,
                vdop_x100: 0,
                hdop_x100: 0,
                ndop_x100: 0,
                edop_x100: 0,
            }),
    {
        Self {
            time_of_week_ms: 0,
            gdop_x100: 0,
            tdop_x100: 0,
            pdop_x100: 0,
            vdop_x100: 0,
            hdop_x100: 0,
            ndop_x100: 0,
            edop_x100: 0,
        }
    }

    /// The message that an 18-byte payload encodes.
    pub open spec fn from_payload(p: Seq<u8>) -> Option<Self> {
        if p.len() == 18 {
            Some(
                Self {
                    time_of_week_ms: le_u32(p, 0),
                    gdop_x100: le_u16(p, 4),
                    tdop_x100: le_u16(p, 6),
                    pdop_x100: le_u16(p, 8),
                    vdop_x100: le_u16(p, 10),
                    hdop_x100: le_u16(p, 12),
                    ndop_x100: le_u16(p, 14),
                    edop_x100: le_u16(p, 16),
                },
            )
        } else {
            None
        }
    }

    pub fn parse(payload: &[u8]) -> (r: Option<UbxNavDop>)
        ensures
            r == Self::from_payload(payload@),
    {
        if payload.len() != Self::PAYLOAD_LEN {
            return None;
        }
        Some(
            UbxNavDop {
                time_of_week_ms: Parse::try_read_u32(&payload[0..4])?,
                gdop_x100: Parse::try_read_u16(&payload[4..6])?,
                tdop_x100: Parse::try_read_u16(&payload[6..8])?,
                pdop_x100: Parse::try_read_u16(&payload[8..10])?,
                vdop_x100: Parse::try_read_u16(&payload[10..12])?,
                hdop_x100: Parse::try_read_u16(&payload[12..14])?,
                ndop_x100: Parse::try_read_u16(&payload[14..16])?,
                edop_x100: Parse::try_read_u16(&payload[16..18])?,
            },
        )
    }
}

impl Default for UbxNavDop {
    fn default() -> (r: Self)
        ensures
            r == Self::new(),
    {
        Self::new()
    }
}

/// The NAV-DOP layout: a payload is read exactly when it has 18 bytes; iTOW at byte 0, then the
/// geometric, time, position, vertical, horizontal, northing and easting DOP (× 100) as
/// little-endian words at bytes 4, 6, 8, 10, 12, 14 and 16.
pub proof fn lemma_nav_dop_layout(p: Seq<u8>)
    ensures
        UbxNavDop::from_payload(p) is Some <==> p.len() == 18,
        UbxNavDop::from_payload(p) matches Some(m) ==> {
            &&& m.time_of_week_ms == le_value4(p, 0)
            &&& m.gdop_x100 == le_value2(p, 4)
            &&& m.tdop_x100 == le_value2(p, 6)
            &&& m.pdop_x100 == le_value2(p, 8)
            &&& m.vdop_x100 == le_value2(p, 10)
            &&& m.hdop_x100 == le_value2(p, 12)
            &&& m.ndop_x100 == le_value2(p, 14)
            &&& m.edop_x100 == le_value2(p, 16)
        },
{
    if p.len() == 18 {
        lemma_le_unsigned(p, 0);
        lemma_le_unsigned(p, 4);
        lemma_le_unsigned(p, 6);
        lemma_le_unsigned(p, 8);
        lemma_le_unsigned(p, 10);
        lemma_le_unsigned(p, 12);
        lemma_le_unsigned(p, 14);
        lemma_le_unsigned(p, 16);
    }
}

} // verus!
