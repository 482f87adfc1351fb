use vstd::prelude::*;
use crate::gps::ubx::ubx_ids::{UbxClassId, UbxNavId};
use crate::gps::ubx_frame::{
    fill_ubx_frame, le_bytes_i32, le_bytes_u32, lemma_le_i32_roundtrip, lemma_le_u32_roundtrip,
    write_i32, write_u32,
};
use crate::gps::ubx_parser::{le_i32, le_u32, le_value4, lemma_le_unsigned, ubx_frame, Parse};

verus! {

/// Geodetic position solution.
#[derive(Clone, Copy, Debug, PartialEq, Eq, Structural)]
pub struct UbxNavPosLlh {
    pub time_of_week_ms: u32,
    pub longitude_degrees_x1e7: i32,
    pub latitude_degrees_x1e7: i32,
    pub height_mm: i32,
}

impl UbxNavPosLlh {
    pub const CLASS: UbxClassId = UbxClassId::Nav;
    pub const ID: u8 = UbxNavId::POS_LLH;
    pub const PAYLOAD_LEN_U16: u16 = 28;
    pub const PAYLOAD_LEN: usize = 28;
    pub const FRAME_LEN: usize = 36;

    #[verifier::allow_in_spec]
    pub fn new() -> Self
        returns
            (Self {
                time_of_week_ms: 0,
                longitude_degrees_x1e7: 0,
                latitude_degrees_x1e7: 0,
                height_mm: 0,
            }),
    {
        Self { time_of_week_ms: 0, longitude_degrees_x1e7: 0, latitude_degrees_x1e7: 0, height_mm: 0 }
    }

    /// The message that a 28-byte payload encodes.
    pub open spec fn from_payload(p: Seq<u8>) -> Option<Self> {
        if p.len() == 28 {
            Some(
                Self {
                    time_of_week_ms: le_u32(p, 0),
                    longitude_degrees_x1e7: le_i32(p, 4),
                    latitude_degrees_x1e7: le_i32(p, 8),
                    height_mm: le_i32(p, 12),
                },
            )
        } else {
            None
        }
    }

    /// The payload that encodes this message: the four fields, then zero padding.
    pub open spec fn payload_bytes(self) -> Seq<u8> {
        le_bytes_u32(self.time_of_week_ms) + le_bytes_i32(self.longitude_degrees_x1e7)
            + le_bytes_i32(self.latitude_degrees_x1e7) + le_bytes_i32(self.height_mm) + Seq::new(
            12,
            |i: int| 0u8,
        )
    }

    pub fn parse(payload: &[u8]) -> (r: Option<UbxNavPosLlh>)
        ensures
            r == Self::from_payload(payload@),
    {
        if payload.len() != Self::PAYLOAD_LEN {
            return None;
        }
        Some(
            UbxNavPosLlh {
                time_of_week_ms: Parse::try_read_u32(&payload[0..4])?,
                longitude_degrees_x1e7: Parse::try_read_i32(&payload[4..8])?,
                latitude_degrees_x1e7: Parse::try_read_i32(&payload[8..12])?,
                height_mm: Parse::try_read_i32(&payload[12..28])?,
            },
        )
    }

    pub fn make_payload(&self) -> (r: [u8; 28])
        ensures
            r@ == self.payload_bytes(),
    {
        let mut payload = [0u8; 28];
        write_u32(&mut payload, 0, self.time_of_week_ms);
        write_i32(&mut payload, 4, self.longitude_degrees_x1e7);
        write_i32(&mut payload, 8, self.latitude_degrees_x1e7);
        write_i32(&mut payload, 12, self.height_mm);
        assert(payload@ =~= self.payload_bytes());
        payload
    }

    pub fn make_frame(self) -> (r: [u8; 36])
        ensures
            r@ == ubx_frame(Self::CLASS.code(), Self::ID, self.payload_bytes()),
    {
        let payload = self.make_payload();
        let mut frame = [0u8; 36];
        fill_ubx_frame(&mut frame, Self::CLASS.value(), Self::ID, &payload);
        frame
    }
}

/// Parsing the payload that a position message makes gives the message back.
pub proof fn lemma_nav_posllh_roundtrip(m: UbxNavPosLlh)
    ensures
        UbxNavPosLlh::from_payload(m.payload_bytes()) == Some(m),
{
    let p = m.payload_bytes();
    assert(p.subrange(0, 4) =~= le_bytes_u32(m.time_of_week_ms));
    assert(p.subrange(4, 8) =~= le_bytes_i32(m.longitude_degrees_x1e7));
    assert(p.subrange(8, 12) =~= le_bytes_i32(m.latitude_degrees_x1e7));
    assert(p.subrange(12, 16) =~= le_bytes_i32(m.height_mm));
    lemma_le_u32_roundtrip(p, 0, m.time_of_week_ms);
    lemma_le_i32_roundtrip(p, 4, m.longitude_degrees_x1e7);
    lemma_le_i32_roundtrip(p, 8, m.latitude_degrees_x1e7);
    lemma_le_i32_roundtrip(p, 12, m.height_mm);
}

impl Default for UbxNavPosLlh {
    fn default() -> (r: Self)
        ensures
            r == Self::new(),
    {
        Self::new()
    }
}

/// The NAV-POSLLH layout: a payload is read exactly when it has 28 bytes; iTOW at byte 0, then
/// longitude, latitude and height above the ellipsoid as signed little-endian words at bytes 4,
/// 8 and 12.
pub proof fn lemma_nav_posllh_parse_layout(p: Seq<u8>)
    ensures
        UbxNavPosLlh::from_payload(p) is Some <==> p.len() == 28,
        UbxNavPosLlh::from_payload(p) matches Some(m) ==> {
            &&& m.time_of_week_ms == le_value4(p, 0)
            &&& m.longitude_degrees_x1e7 == le_i32(p, 4)
            &&& m.latitude_degrees_x1e7 == le_i32(p, 8)
            &&& m.height_mm == le_i32(p, 12)
        },
{
    if p.len() == 28 {
        lemma_le_unsigned(p, 0);
    }
}

/// The NAV-POSLLH layout of the payload that a position makes: iTOW at byte 0, longitude at 4,
/// latitude at 8, height at 12, and zeros from byte 16 on.
pub proof fn lemma_nav_posllh_payload_layout(m: UbxNavPosLlh)
    ensures
        ({
            let p = m.payload_bytes();
            &&& p.len() == 28
            &&& le_u32(p, 0) == m.time_of_week_ms
            &&& le_i32(p, 4) == m.longitude_degrees_x1e7
            &&& le_i32(p, 8) == m.latitude_degrees_x1e7
            &&& le_i32(p, 12) == m.height_mm
            &&& forall|i: int| 16 <= i < 28 ==> p[i] == 0
        }),
{
    let p = m.payload_bytes();
    lemma_le_u32_roundtrip(p, 0, m.time_of_week_ms);
    lemma_le_i32_roundtrip(p, 4, m.longitude_degrees_x1e7);
    lemma_le_i32_roundtrip(p, 8, m.latitude_degrees_x1e7);
    lemma_le_i32_roundtrip(p, 12, m.height_mm);
}

} // verus!
