use vstd::prelude::*;
use crate::gps::ubx::ubx_ids::{UbxCfgId, UbxClassId};
use crate::gps::ubx_frame::{fill_ubx_frame, le_bytes_u32, lemma_le_u32_roundtrip, write_u32};
use crate::gps::ubx_parser::{le_u32, le_value4, lemma_le_unsigned, ubx_frame, Parse};

verus! {

/// SBAS configuration.
#[derive(Clone, Copy, Debug, PartialEq, Eq, Structural)]
pub struct UbxCfgSbas {
    pub mode: u8,
    pub usage: u8,
    pub max_sbas: u8,
    pub scanmode2: u8,
    pub scanmode1: u32,
}

impl UbxCfgSbas {
    pub const CLASS: UbxClassId = UbxClassId::Cfg;
    pub const ID: u8 = UbxCfgId::PMS;
    pub const PAYLOAD_LEN_U16: u16 = 8;
    pub const PAYLOAD_LEN: usize = 8;
    pub const FRAME_LEN: usize = 16;

    #[verifier::allow_in_spec]
    pub fn new() -> Self
        returns
            (Self { mode: 0, usage: 0, max_sbas: 0, scanmode2: 0, scanmode1: 0 }),
    {
        Self { mode: 0, usage: 0, max_sbas: 0, scanmode2: 0, scanmode1: 0 }
    }

    /// The message that an 8-byte payload encodes.
    pub open spec fn from_payload(p: Seq<u8>) -> Option<Self> {
        if p.len() == 8 {
            Some(
                Self {
                    mode: p[0],
                    usage: p[1],
                    max_sbas: p[2],
                    scanmode2: p[3],
                    scanmode1: le_u32(p, 4),
                },
            )
        } else {
            None
        }
    }

    /// The payload that encodes this message.
    pub open spec fn payload_bytes(self) -> Seq<u8> {
        seq![self.mode, self.usage, self.max_sbas, self.scanmode2] + le_bytes_u32(self.scanmode1)
    }

    pub fn parse(payload: &[u8]) -> (r: Option<UbxCfgSbas>)
        ensures
            r == Self::from_payload(payload@),
    {
        if payload.len() != Self::PAYLOAD_LEN {
            return None;
        }
        Some(
            UbxCfgSbas {
                mode: payload[0],
                usage: payload[1],
                max_sbas: payload[2],
                scanmode2: payload[3],
                scanmode1: Parse::try_read_u32(&payload[4..8])?,
            },
        )
    }

    pub fn make_payload(self) -> (r: [u8; 8])
        ensures
            r@ == self.payload_bytes(),
    {
        let mut payload = [0u8; 8];
        payload[0] = self.mode;
        payload[1] = self.usage;
        payload[2] = self.max_sbas;
        payload[3] = self.scanmode2;
        write_u32(&mut payload, 4, self.scanmode1);
        assert(payload@ =~= self.payload_bytes());
        payload
    }

    pub fn make_frame(self) -> (r: [u8; 16])
        ensures
            r@ == ubx_frame(Self::CLASS.code(), Self::ID, self.payload_bytes()),
    {
        let payload = self.make_payload();
        let mut frame = [0u8; 16];
        fill_ubx_frame(&mut frame, Self::CLASS.value(), Self::ID, &payload);
        frame
    }
}

/// Parsing the payload that an SBAS message makes gives the message back.
pub proof fn lemma_cfg_sbas_roundtrip(m: UbxCfgSbas)
    ensures
        UbxCfgSbas::from_payload(m.payload_bytes()) == Some(m),
{
    let p = m.payload_bytes();
    assert(p.subrange(4, 8) =~= le_bytes_u32(m.scanmode1));
    lemma_le_u32_roundtrip(p, 4, m.scanmode1);
}

impl Default for UbxCfgSbas {
    fn default() -> (r: Self)
        ensures
            r == Self::new(),
    {
        Self::new()
    }
}

/// The CFG-SBAS layout that parsing reads: a payload is read exactly when it has 8 bytes; mode,
/// usage, the number of SBAS channels and the second scan mode at bytes 0 to 3, the first scan
/// mode as a little-endian word at byte 4.
pub proof fn lemma_cfg_sbas_parse_layout(p: Seq<u8>)
    ensures
        UbxCfgSbas::from_payload(p) is Some <==> p.len() == 8,
        UbxCfgSbas::from_payload(p) matches Some(m) ==> {
            &&& m.mode == p[0]
            &&& m.usage == p[1]
            &&& m.max_sbas == p[2]
            &&& m.scanmode2 == p[3]
            &&& m.scanmode1 == le_value4(p, 4)
        },
{
    if p.len() == 8 {
        lemma_le_unsigned(p, 4);
    }
}

/// The CFG-SBAS layout of the payload that settings make: mode, usage, channels and second scan
/// mode at bytes 0 to 3, the first scan mode at byte 4.
pub proof fn lemma_cfg_sbas_payload_layout(m: UbxCfgSbas)
    ensures
        ({
            let p = m.payload_bytes();
            &&& p.len() == 8
            &&& p[0] == m.mode
            &&& p[1] == m.usage
            &&& p[2] == m.max_sbas
            &&& p[3] == m.scanmode2
            &&& le_u32(p, 4) == m.scanmode1
        }),
{
    let p = m.payload_bytes();
    lemma_le_u32_roundtrip(p, 4, m.scanmode1);
}

} // verus!
