use vstd::prelude::*;

verus! {

/// u-blox receiver generations.
#[derive(Clone, Copy, Debug, PartialEq, Eq, Structural)]
pub enum UbxVersion {
    M5,
    M6,
    M7,
    M8,
    M9,
    M10,
}

/// UBX message classes, including the class that configures NMEA output.
#[derive(Clone, Copy, Debug, PartialEq, Eq, Structural)]
pub enum UbxClassId {
    /// Navigation Results Messages: Position, Speed, Time, Acceleration, Heading, DOP, SVs used.
    Nav,
    /// Receiver Manager Messages: Satellite Status, RTC Status.
    Rxm,
    /// Information Messages: Printf-Style Messages, with IDs such as Error, Warning, Notice.
    Inf,
    /// Ack/Nak Messages: Acknowledge or Reject messages to UBX-CFG input messages.
    Ack,
    /// Configuration Input Messages: Configure the receiver.
    Cfg,
    /// Firmware Update Messages: Memory/Flash erase/write, Reboot, Flash identification, etc.
    Upd,
    /// Monitoring Messages: Communication Status, Stack Usage, Task Status.
    Mon,
    /// Assist Now Aiding Messages: Ephemeris, Almanac, other A-GPS data input.
    Aid,
    /// Timing Messages: Time Pulse Output, Time Mark Results.
    Tim,
    /// External Sensor Fusion Messages: External Sensor Measurements and Status Information.
    Esf,
    /// Multiple GNSS Assistance Messages: Assistance data for various GNSS.
    Mga,
    /// Logging Messages: Log creation, deletion, info and retrieval.
    Log,
    /// Security Feature Messages.
    Sec,
    /// High Rate Navigation Results Messages: High rate time, position, speed, heading.
    Hnr,
    /// For configuring NMEA messages using the UBX protocol message UBX-CFG-MSG.
    Nmea,
}

impl UbxClassId {
    /// The class byte on the wire.
    pub open spec fn code(self) -> u8 {
        match self {
            UbxClassId::Nav => 0x01,
            UbxClassId::Rxm => 0x02,
            UbxClassId::Inf => 0x04,
            UbxClassId::Ack => 0x05,
            UbxClassId::Cfg => 0x06,
            UbxClassId::Upd => 0x09,
            UbxClassId::Mon => 0x0a,
            UbxClassId::Aid => 0x0b,
            UbxClassId::Tim => 0x0d,
            UbxClassId::Esf => 0x10,
            UbxClassId::Mga => 0x13,
            UbxClassId::Log => 0x21,
            UbxClassId::Sec => 0x27,
            UbxClassId::Hnr => 0x28,
            UbxClassId::Nmea => 0xf0,
        }
    }

    /// The class that a byte names. The NMEA class is not looked up from a byte.
    pub open spec fn of_code(value: u8) -> Option<UbxClassId> {
        if value == 0x01 {
            Some(UbxClassId::Nav)
        } else if value == 0x02 {
            Some(UbxClassId::Rxm)
        } else if value == 0x04 {
            Some(UbxClassId::Inf)
        } else if value == 0x05 {
            Some(UbxClassId::Ack)
        } else if value == 0x06 {
            Some(UbxClassId::Cfg)
        } else if value == 0x09 {
            Some(UbxClassId::Upd)
        } else if value == 0x0a {
            Some(UbxClassId::Mon)
        } else if value == 0x0b {
            Some(UbxClassId::Aid)
        } else if value == 0x0d {
            Some(UbxClassId::Tim)
        } else if value == 0x10 {
            Some(UbxClassId::Esf)
        } else if value == 0x13 {
            Some(UbxClassId::Mga)
        } else if value == 0x21 {
            Some(UbxClassId::Log)
        } else if value == 0x27 {
            Some(UbxClassId::Sec)
        } else if value == 0x28 {
            Some(UbxClassId::Hnr)
        } else {
            None
        }
    }

    pub fn try_from_u8(value: u8) -> (r: Option<Self>)
        ensures
            r == Self::of_code(value),
    {
        match value {
            0x01 => Some(Self::Nav),
            0x02 => Some(Self::Rxm),
            0x04 => Some(Self::Inf),
            0x05 => Some(Self::Ack),
            0x06 => Some(Self::Cfg),
            0x09 => Some(Self::Upd),
            0x0a => Some(Self::Mon),
            0x0b => Some(Self::Aid),
            0x0d => Some(Self::Tim),
            0x10 => Some(Self::Esf),
            0x13 => Some(Self::Mga),
            0x21 => Some(Self::Log),
            0x27 => Some(Self::Sec),
            0x28 => Some(Self::Hnr),
            _ => None,
        }
    }

    /// The class byte on the wire.
    pub fn value(self) -> (r: u8)
        ensures
            r == self.code(),
    {
        match self {
            UbxClassId::Nav => 0x01,
            UbxClassId::Rxm => 0x02,
            UbxClassId::Inf => 0x04,
            UbxClassId::Ack => 0x05,
            UbxClassId::Cfg => 0x06,
            UbxClassId::Upd => 0x09,
            UbxClassId::Mon => 0x0a,
            UbxClassId::Aid => 0x0b,
            UbxClassId::Tim => 0x0d,
            UbxClassId::Esf => 0x10,
            UbxClassId::Mga => 0x13,
            UbxClassId::Log => 0x21,
            UbxClassId::Sec => 0x27,
            UbxClassId::Hnr => 0x28,
            UbxClassId::Nmea => 0xf0,
        }
    }
}

/// Ack/Nak Messages: ie Acknowledge or Reject messages to UBX-CFG input messages.
///  Messages in the UBX-ACK class output the processing results to UBX-CFG and some other messages.
pub struct UbxAckId;

impl UbxAckId {
    /// Message not acknowledged.
    pub const NAK: u8 = 0x00;
    /// Message acknowledged.
    pub const ACK: u8 = 0x01;
}

pub struct UbxCfgId;

impl UbxCfgId {
    /// Polls the configuration for one I/O port.
    pub const PRT: u8 = 0x00;
    /// Poll a message configuration/Set message rate.
    pub const MSG: u8 = 0x01;
    /// Navigation engine settings.
    pub const NAV5: u8 = 0x24;
    /// Navigation engine expert settings.
    pub const NAVX5: u8 = 0x03;
    /// Navigation/measurement rate settings.
    pub const RATE: u8 = 0x08;
    /// GNSS system configuration.
    pub const GNSS: u8 = 0x3e;
    /// Power mode setup.
    pub const PMS: u8 = 0x86;
    /// SBAS configuration.
    pub const SBAS: u8 = 0x16;
    /// Extended NMEA protocol configuration V1.
    pub const NMEA: u8 = 0x17;
}

pub struct UbxMonId;

impl UbxMonId {
    /// Receiver and software version.
    pub const VER: u8 = 0x04;
}

pub struct UbxNavId;

impl UbxNavId {
    pub const POS_ECEF: u8 = 0x01;
    pub const POS_LLH: u8 = 0x02;
    pub const STATUS: u8 = 0x03;
    pub const DOP: u8 = 0x04;
    pub const ATT: u8 = 0x05;
    pub const PVT: u8 = 0x07;
    pub const ODO: u8 = 0x09;
    pub const SAT: u8 = 0x10;
    pub const VEL_ECEF: u8 = 0x11;
    pub const VEL_NED: u8 = 0x12;
    /// Users are recommended to use the UBX-NAV-PVT message in preference.
    pub const SOL: u8 = 0x06;
    /// Users are recommended to use the UBX-NAV-SAT message in preference.
    pub const SVINFO: u8 = 0x30;
}

/// Ids of the standard NMEA messages, as UBX-CFG-MSG names them.
pub struct UbxNmeaId;

impl UbxNmeaId {
    /// Datum reference.
    pub const _DTM: u8 = 0x0A;
    /// Poll a standard message (Talker ID GB).
    pub const _GBQ: u8 = 0x44;
    /// GNSS satellite fault detection.
    pub const _GBS: u8 = 0x09;
    /// Global positioning system fix data.
    pub const GGA: u8 = 0x00;
    /// Latitude and longitude, with time of position fix and status.
    pub const GLL: u8 = 0x01;
    /// Poll a standard message (Talker ID GL).
    pub const _GLQ: u8 = 0x43;
    /// Poll a standard message (Talker ID GN).
    pub const _GNQ: u8 = 0x42;
    /// GNSS fix data.
    pub const _GNS: u8 = 0x0D;
    /// Poll a standard message (Talker ID GP).
    pub const _GPQ: u8 = 0x40;
    /// GNSS range residuals.
    pub const _GRS: u8 = 0x06;
    /// GNSS DOP and active satellites.
    pub const GSA: u8 = 0x02;
    /// GNSS pseudo-range error statistics.
    pub const _GST: u8 = 0x07;
    /// GNSS satellites in view.
    pub const GSV: u8 = 0x03;
    /// Recommended minimum data.
    pub const RMC: u8 = 0x04;
    /// True heading and status.
    pub const _THS: u8 = 0x0E;
    /// Text transmission.
    pub const _TXT: u8 = 0x41;
    /// Dual ground/water distance.
    pub const _VLW: u8 = 0x0F;
    /// Course over ground and ground speed.
    pub const VTG: u8 = 0x05;
    /// Time and date.
    pub const _ZDA: u8 = 0x08;
}

/// Every class other than NMEA is looked up again from its class byte, and no two classes share
/// a byte.
pub proof fn lemma_ubx_class_code_roundtrip(x: UbxClassId, y: UbxClassId)
    ensures
        x != UbxClassId::Nmea ==> UbxClassId::of_code(x.code()) == Some(x),
        x.code() == y.code() ==> x == y,
{
}

} // verus!
