use vstd::prelude::*;
use crate::gps::ubx::ubx_ids::{UbxClassId, UbxMonId};

verus! {

/// Poll receiver and software version.
#[derive(Clone, Copy, Debug, PartialEq)]
pub struct UbxMonVer {
    /// Nul-terminated software version string.
    pub software_version: [u8; 30],
    /// Nul-terminated hardware version string.
    pub hardware_version: [u8; 10],
}

impl UbxMonVer {
    pub const CLASS: UbxClassId = UbxClassId::Mon;
    pub const ID: u8 = UbxMonId::VER;
    /// The fixed part of the payload; receivers may append 30-byte extension strings.
    pub const PAYLOAD_LEN_U16: u16 = 40;
    pub const PAYLOAD_LEN: usize = 40;
    pub const FRAME_LEN: usize = 48;

    pub fn new() -> (r: Self)
        ensures
            r.software_version@ == Seq::new(30, |i: int| 0u8),
            r.hardware_version@ == Seq::new(10, |i: int| 0u8),
    {
        let r = Self { software_version: [0u8; 30], hardware_version: [0u8; 10] };
        assert(r.software_version@ =~= Seq::new(30, |i: int| 0u8));
        assert(r.hardware_version@ =~= Seq::new(10, |i: int| 0u8));
        r
    }

    /// A 40-byte payload: the software version string, then the hardware version string.
    pub fn parse(payload: &[u8]) -> (r: Option<UbxMonVer>)
        ensures
            r.is_some() == (payload@.len() == 40),
            r matches Some(v) ==> {
                &&& v.software_version@ == payload@.subrange(0, 30)
                &&& v.hardware_version@ == payload@.subrange(30, 40)
            },
    {
        if payload.len() != Self::PAYLOAD_LEN {
            return None;
        }
        let mut software_version = [0u8; 30];
        let mut i: usize = 0;
        while i < 30
            invariant
                payload@.len() == 40,
                i <= 30,
                forall|j: int| 0 <= j < i ==> software_version@[j] == payload@[j],
            decreases 30 - i,
        {
            software_version[i] = payload[i];
            i = i + 1;
        }
        let mut hardware_version = [0u8; 10];
        let mut k: usize = 0;
        while k < 10
            invariant
                payload@.len() == 40,
                k <= 10,
                forall|j: int| 0 <= j < k ==> hardware_version@[j] == payload@[30 + j],
            decreases 10 - k,
        {
            hardware_version[k] = payload[30 + k];
            k = k + 1;
        }
        assert(software_version@ =~= payload@.subrange(0, 30));
        assert(hardware_version@ =~= payload@.subrange(30, 40));
        Some(UbxMonVer { software_version, hardware_version })
    }
}

impl Default for UbxMonVer {
    fn default() -> (r: Self)
        ensures
            r.software_version@ == Seq::new(30, |i: int| 0u8),
            r.hardware_version@ == Seq::new(10, |i: int| 0u8),
    {
        Self::new()
    }
}

} // verus!
