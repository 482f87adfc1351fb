use vstd::prelude::*;
use crate::gps::ubx::ubx_ids::{UbxCfgId, UbxClassId};
use crate::gps::ubx_frame::fill_ubx_frame;
use crate::gps::ubx_parser::ubx_frame;

verus! {

/// Poll a message configuration.
#[derive(Clone, Copy, Debug, PartialEq, Eq, Structural)]
pub struct UbxCfgMsgPoll {
    pub class: u8,
    pub id: u8,
}

impl UbxCfgMsgPoll {
    pub const CLASS: UbxClassId = UbxClassId::Cfg;
    pub const ID: u8 = UbxCfgId::MSG;
    pub const PAYLOAD_LEN_U16: u16 = 2;
    pub const PAYLOAD_LEN: usize = 2;
    pub const FRAME_LEN: usize = 10;

    #[verifier::allow_in_spec]
    pub fn new() -> Self
        returns
            (Self { class: 0, id: 0 }),
    {
        Self { class: 0, id: 0 }
    }

    /// The message that a 2-byte payload encodes.
    pub open spec fn from_payload(p: Seq<u8>) -> Option<Self> {
        if p.len() == 2 {
            Some(Self { class: p[0], id: p[1] })
        } else {
            None
        }
    }

    /// The payload that encodes this message.
    pub open spec fn payload_bytes(self) -> Seq<u8> {
        seq![self.class, self.id]
    }

    pub fn parse(payload: &[u8]) -> (r: Option<UbxCfgMsgPoll>)
        ensures
            r == Self::from_payload(payload@),
    {
        if payload.len() != Self::PAYLOAD_LEN {
            return None;
        }
        Some(UbxCfgMsgPoll { class: payload[0], id: payload[1] })
    }

    pub fn make_payload(self) -> (r: [u8; 2])
        ensures
            r@ == self.payload_bytes(),
    {
        let mut payload = [0u8; 2];
        payload[0] = self.class;
        payload[1] = self.id;
        assert(payload@ =~= self.payload_bytes());
        payload
    }

    /// The whole frame: sync bytes, header, payload and Fletcher checksum.
    pub fn make_frame(self) -> (r: [u8; 10])
        ensures
            r@ == ubx_frame(Self::CLASS.code(), Self::ID, self.payload_bytes()),
    {
        let payload = self.make_payload();
        let mut frame = [0u8; 10];
        fill_ubx_frame(&mut frame, Self::CLASS.value(), Self::ID, &payload);
        frame
    }
}

/// Parsing the payload that the message makes gives the message back.
pub proof fn lemma_cfg_msg_poll_roundtrip(m: UbxCfgMsgPoll)
    ensures
        UbxCfgMsgPoll::from_payload(m.payload_bytes()) == Some(m),
{
}

impl Default for UbxCfgMsgPoll {
    fn default() -> (r: Self)
        ensures
            r == Self::new(),
    {
        Self::new()
    }
}

/// Set the output rate of a message.
#[derive(Clone, Copy, Debug, PartialEq, Eq, Structural)]
pub struct UbxCfgMsgSet {
    pub class: u8,
    pub id: u8,
    pub rate: u8,
}

impl UbxCfgMsgSet {
    pub const CLASS: UbxClassId = UbxClassId::Cfg;
    pub const ID: u8 = UbxCfgId::MSG;
    pub const PAYLOAD_LEN_U16: u16 = 3;
    pub const PAYLOAD_LEN: usize = 3;
    pub const FRAME_LEN: usize = 11;

    #[verifier::allow_in_spec]
    pub fn new() -> Self
        returns
            (Self { class: 0, id: 0, rate: 0 }),
    {
        Self { class: 0, id: 0, rate: 0 }
    }

    /// The message that a 3-byte payload encodes.
    pub open spec fn from_payload(p: Seq<u8>) -> Option<Self> {
        if p.len() == 3 {
            Some(Self { class: p[0], id: p[1], rate: p[2] })
        } else {
            None
        }
    }

    /// The payload that encodes this message.
    pub open spec fn payload_bytes(self) -> Seq<u8> {
        seq![self.class, self.id, self.rate]
    }

    pub fn parse(payload: &[u8]) -> (r: Option<UbxCfgMsgSet>)
        ensures
            r == Self::from_payload(payload@),
    {
        if payload.len() != Self::PAYLOAD_LEN {
            return None;
        }
        Some(UbxCfgMsgSet { class: payload[0], id: payload[1], rate: payload[2] })
    }

    pub fn make_payload(self) -> (r: [u8; 3])
        ensures
            r@ == self.payload_bytes(),
    {
        let mut payload = [0u8; 3];
        payload[0] = self.class;
        payload[1] = self.id;
        payload[2] = self.rate;
        assert(payload@ =~= self.payload_bytes());
        payload
    }

    /// The whole frame: sync bytes, header, payload and Fletcher checksum.
    pub fn make_frame(self) -> (r: [u8; 11])
        ensures
            r@ == ubx_frame(Self::CLASS.code(), Self::ID, self.payload_bytes()),
    {
        let payload = self.make_payload();
        let mut frame = [0u8; 11];
        fill_ubx_frame(&mut frame, Self::CLASS.value(), Self::ID, &payload);
        frame
    }
}

/// Parsing the payload that the message makes gives the message back.
pub proof fn lemma_cfg_msg_set_roundtrip(m: UbxCfgMsgSet)
    ensures
        UbxCfgMsgSet::from_payload(m.payload_bytes()) == Some(m),
{
}

impl Default for UbxCfgMsgSet {
    fn default() -> (r: Self)
        ensures
            r == Self::new(),
    {
        Self::new()
    }
}

/// The CFG-MSG poll layout that parsing reads: exactly two bytes, the class then the id.
pub proof fn lemma_cfg_msg_poll_parse_layout(p: Seq<u8>)
    ensures
        UbxCfgMsgPoll::from_payload(p) is Some <==> p.len() == 2,
        UbxCfgMsgPoll::from_payload(p) matches Some(m) ==> {
            &&& m.class == p[0]
            &&& m.id == p[1]
        },
{
}

/// The CFG-MSG poll payload that a request makes: the class then the id.
pub proof fn lemma_cfg_msg_poll_payload_layout(m: UbxCfgMsgPoll)
    ensures
        ({
            let p = m.payload_bytes();
            &&& p.len() == 2
            &&& p[0] == m.class
            &&& p[1] == m.id
        }),
{
    let p = m.payload_bytes();

}

/// The CFG-MSG set layout that parsing reads: exactly three bytes, the class, the id, the rate.
pub proof fn lemma_cfg_msg_set_parse_layout(p: Seq<u8>)
    ensures
        UbxCfgMsgSet::from_payload(p) is Some <==> p.len() == 3,
        UbxCfgMsgSet::from_payload(p) matches Some(m) ==> {
            &&& m.class == p[0]
            &&& m.id == p[1]
            &&& m.rate == p[2]
        },
{
}

/// The CFG-MSG set payload that a request makes: the class, the id, the rate.
pub proof fn lemma_cfg_msg_set_payload_layout(m: UbxCfgMsgSet)
    ensures
        ({
            let p = m.payload_bytes();
            &&& p.len() == 3
            &&& p[0] == m.class
            &&& p[1] == m.id
            &&& p[2] == m.rate
        }),
{
    let p = m.payload_bytes();

}

} // verus!
