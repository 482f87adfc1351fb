use vstd::prelude::*;

verus! {

/// The class byte of navigation messages.
pub const UBX_NAV_CLASS: u8 = 0x01;

pub struct UbxNavId;

impl UbxNavId {
    pub const POS_ECEF: u8 = 0x01;
    pub const POS_LLH: u8 = 0x02;
    pub const STATUS: u8 = 0x03;
    pub const DOP: u8 = 0x04;
    pub const ATT: u8 = 0x05;
    pub const PVT: u8 = 0x07;
    pub const ODO: u8 = 0x09;
    pub const SAT: u8 = 0x10;
    pub const VEL_ECEF: u8 = 0x11;
    pub const VEL_NED: u8 = 0x12;
    /// Users are recommended to use the UBX-NAV-PVT message in preference.
    pub const SOL: u8 = 0x06;
    /// Users are recommended to use the UBX-NAV-SAT message in preference.
    pub const SVINFO: u8 = 0x30;
}

} // verus!
