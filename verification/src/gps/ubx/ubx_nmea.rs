use vstd::prelude::*;

verus! {

/// Ids of the standard NMEA messages, as UBX-CFG-MSG names them.
pub struct UbxNmeaId;

impl UbxNmeaId {
    /// Datum reference.
    pub const _DTM: u8 = 0x0A;
    /// Poll a standard message (Talker ID GB).
    pub const _GBQ: u8 = 0x44;
    /// GNSS satellite fault detection.
    pub const _GBS: u8 = 0x09;
    /// Global positioning system fix data.
    pub const GGA: u8 = 0x00;
    /// Latitude and longitude, with time of position fix and status.
    pub const GLL: u8 = 0x01;
    /// Poll a standard message (Talker ID GL).
    pub const _GLQ: u8 = 0x43;
    /// Poll a standard message (Talker ID GN).
    pub const _GNQ: u8 = 0x42;
    /// GNSS fix data.
    pub const _GNS: u8 = 0x0D;
    /// Poll a standard message (Talker ID GP).
    pub const _GPQ: u8 = 0x40;
    /// GNSS range residuals.
    pub const _GRS: u8 = 0x06;
    /// GNSS DOP and active satellites.
    pub const GSA: u8 = 0x02;
    /// GNSS pseudo-range error statistics.
    pub const _GST: u8 = 0x07;
    /// GNSS satellites in view.
    pub const GSV: u8 = 0x03;
    /// Recommended minimum data.
    pub const RMC: u8 = 0x04;
    /// True heading and status.
    pub const _THS: u8 = 0x0E;
    /// Text transmission.
    pub const _TXT: u8 = 0x41;
    /// Dual ground/water distance.
    pub const _VLW: u8 = 0x0F;
    /// Course over ground and ground speed.
    pub const VTG: u8 = 0x05;
    /// Time and date.
    pub const _ZDA: u8 = 0x08;
}

} // verus!
