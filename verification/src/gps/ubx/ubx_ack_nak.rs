use vstd::prelude::*;
use crate::gps::ubx::ubx_ids::{UbxAckId, UbxClassId};

verus! {

/// Message not acknowledged.
#[derive(Clone, Copy, Debug, PartialEq, Eq, Structural)]
pub struct UbxAckNak {
    /// Class ID of the acknowledged message.
    pub class: u8,
    /// Message ID of the acknowledged message.
    pub id: u8,
}

impl UbxAckNak {
    pub const CLASS: UbxClassId = UbxClassId::Ack;
    pub const ID: u8 = UbxAckId::NAK;
    pub const PAYLOAD_LEN_U16: u16 = 2;
    pub const PAYLOAD_LEN: usize = 2;
    pub const FRAME_LEN: usize = 10;

    #[verifier::allow_in_spec]
    pub fn new() -> Self
        returns
            (Self { class: 0, id: 0 }),
    {
        Self { class: 0, id: 0 }
    }

    pub fn parse(payload: &[u8]) -> (r: Option<UbxAckNak>)
        ensures
            r == (if payload@.len() == 2 {
                Some(Self { class: payload@[0], id: payload@[1] })
            } else {
                None
            }),
    {
        if payload.len() != Self::PAYLOAD_LEN {
            return None;
        }
        Some(UbxAckNak { class: payload[0], id: payload[1] })
    }
}

impl Default for UbxAckNak {
    fn default() -> (r: Self)
        ensures
            r == Self::new(),
    {
        Self::new()
    }
}

} // verus!
