use vstd::prelude::*;
use crate::gps::ubx::ubx_ids::{UbxCfgId, UbxClassId};
use crate::gps::ubx_frame::{
    fill_ubx_frame, le_bytes_u16, le_bytes_u32, lemma_le_u16_roundtrip, lemma_le_u32_roundtrip,
    write_u16, write_u32,
};
use crate::gps::ubx_parser::{le_u16, le_u32, le_value2, le_value4, lemma_le_unsigned, ubx_frame, Parse};

verus! {

/// Navigation engine expert settings: the leading version and mask fields.
#[derive(Clone, Copy, Debug, PartialEq, Eq, Structural)]
pub struct UbxCfgNavX5 {
    pub version: u16,
    pub mask1: u16,
    pub mask2: u32,
}

impl UbxCfgNavX5 {
    pub const CLASS: UbxClassId = UbxClassId::Cfg;
    pub const ID: u8 = UbxCfgId::RATE;
    pub const PAYLOAD_LEN_U16: u16 = 40;
    pub const PAYLOAD_LEN: usize = 40;
    pub const FRAME_LEN: usize = 48;

    #[verifier::allow_in_spec]
    pub fn new() -> Self
        returns
            (Self { version: 0, mask1: 0, mask2: 0 }),
    {
        Self { version: 0, mask1: 0, mask2: 0 }
    }

    /// The message that a 40-byte payload encodes; only its first eight bytes are read.
    pub open spec fn from_payload(p: Seq<u8>) -> Option<Self> {
        if p.len() == 40 {
            Some(Self { version: le_u16(p, 0), mask1: le_u16(p, 2), mask2: le_u32(p, 4) })
        } else {
            None
        }
    }

    /// The payload that encodes this message: the three fields, then zeros.
    pub open spec fn payload_bytes(self) -> Seq<u8> {
        le_bytes_u16(self.version) + le_bytes_u16(self.mask1) + le_bytes_u32(self.mask2) + Seq::new(
            32,
            |i: int| 0u8,
        )
    }

    pub fn parse(payload: &[u8]) -> (r: Option<UbxCfgNavX5>)
        ensures
            r == Self::from_payload(payload@),
    {
        if payload.len() != Self::PAYLOAD_LEN {
            return None;
        }
        Some(
            UbxCfgNavX5 {
                version: Parse::try_read_u16(&payload[0..2])?,
                mask1: Parse::try_read_u16(&payload[2..4])?,
                mask2: Parse::try_read_u32(&payload[4..8])?,
            },
        )
    }

    pub fn make_payload(self) -> (r: [u8; 40])
        ensures
            r@ == self.payload_bytes(),
    {
        let mut payload = [0u8; 40];
        write_u16(&mut payload, 0, self.version);
        write_u16(&mut payload, 2, self.mask1);
        write_u32(&mut payload, 4, self.mask2);
        assert(payload@ =~= self.payload_bytes());
        payload
    }

    pub fn make_frame(self) -> (r: [u8; 48])
        ensures
            r@ == ubx_frame(Self::CLASS.code(), Self::ID, self.payload_bytes()),
    {
        let payload = self.make_payload();
        let mut frame = [0u8; 48];
        fill_ubx_frame(&mut frame, Self::CLASS.value(), Self::ID, &payload);
        frame
    }
}

/// Parsing the payload that an expert-settings message makes gives the message back.
pub proof fn lemma_cfg_navx5_roundtrip(m: UbxCfgNavX5)
    ensures
        UbxCfgNavX5::from_payload(m.payload_bytes()) == Some(m),
{
    let p = m.payload_bytes();
    assert(p.subrange(0, 2) =~= le_bytes_u16(m.version));
    assert(p.subrange(2, 4) =~= le_bytes_u16(m.mask1));
    assert(p.subrange(4, 8) =~= le_bytes_u32(m.mask2));
    lemma_le_u16_roundtrip(p, 0, m.version);
    lemma_le_u16_roundtrip(p, 2, m.mask1);
    lemma_le_u32_roundtrip(p, 4, m.mask2);
}

impl Default for UbxCfgNavX5 {
    fn default() -> (r: Self)
        ensures
            r == Self::new(),
    {
        Self::new()
    }
}

/// The CFG-NAVX5 layout that parsing reads: a payload is read exactly when it has 40 bytes; the
/// version and first mask as little-endian words at bytes 0 and 2, the second mask at byte 4.
pub proof fn lemma_cfg_navx5_parse_layout(p: Seq<u8>)
    ensures
        UbxCfgNavX5::from_payload(p) is Some <==> p.len() == 40,
        UbxCfgNavX5::from_payload(p) matches Some(m) ==> {
            &&& m.version == le_value2(p, 0)
            &&& m.mask1 == le_value2(p, 2)
            &&& m.mask2 == le_value4(p, 4)
        },
{
    if p.len() == 40 {
        lemma_le_unsigned(p, 0);
        lemma_le_unsigned(p, 2);
        lemma_le_unsigned(p, 4);
    }
}

/// The CFG-NAVX5 layout of the payload that settings make: version at byte 0, first mask at 2,
/// second mask at 4, and zeros from byte 8 on.
pub proof fn lemma_cfg_navx5_payload_layout(m: UbxCfgNavX5)
    ensures
        ({
            let p = m.payload_bytes();
            &&& p.len() == 40
            &&& le_u16(p, 0) == m.version
            &&& le_u16(p, 2) == m.mask1
            &&& le_u32(p, 4) == m.mask2
            &&& forall|i: int| 8 <= i < 40 ==> p[i] == 0
        }),
{
    let p = m.payload_bytes();
    lemma_le_u16_roundtrip(p, 0, m.version);
    lemma_le_u16_roundtrip(p, 2, m.mask1);
    lemma_le_u32_roundtrip(p, 4, m.mask2);
}

} // verus!
