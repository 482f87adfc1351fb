use vstd::prelude::*;
use crate::gps::nmea::nmea_gsa::NmeaGsa;
use crate::gps::nmea_gga::NmeaGga;
use crate::gps::nmea_gsv::NmeaGsv;
use crate::gps::nmea_rmc::NmeaRmc;
use crate::gps::ubx::ubx_nav_dop::UbxNavDop;
use crate::gps::ubx_nav_pvt::UbxNavPvt;
use crate::gps::ubx::ubx_ids::UbxVersion;

verus! {

/// Bookkeeping of the link to the receiver: error and timeout counts, the last
/// navigation message, and the state of a configuration command awaiting acknowledgement.
#[derive(Clone, Copy, Debug, PartialEq, Eq, Structural)]
pub struct GpsStatus {
    pub errors: u32,
    pub timeouts: u32,
    pub last_nav_message_time_of_week: u32,
    pub last_message_sent: u32,
    pub ack_waiting_message_id: u8,
    pub ack_state: UbxAckState,
    pub update_rate_hz: u8,
    pub ubx_version: UbxVersion,
}

impl GpsStatus {
    #[verifier::allow_in_spec]
    pub fn new() -> Self
        returns
            (Self {
                errors: 0,
                timeouts: 0,
                last_nav_message_time_of_week: 0,
                last_message_sent: 0,
                ack_waiting_message_id: 0,
                ack_state: UbxAckState::Idle,
                update_rate_hz: 10,
                ubx_version: UbxVersion::M8,
            }),
    {
        Self {
            errors: 0,
            timeouts: 0,
            last_nav_message_time_of_week: 0,
            last_message_sent: 0,
            ack_waiting_message_id: 0,
            ack_state: UbxAckState::Idle,
            update_rate_hz: 10,
            ubx_version: UbxVersion::M8,
        }
    }

    /// Takes note of a NmeaGga record; the status takes nothing from it.
    pub fn amend_with_nmea_gga(&mut self, gga: NmeaGga)
        ensures
            *final(self) == *old(self),
    {
    }

    /// Takes note of a NmeaGsa record; the status takes nothing from it.
    pub fn amend_with_nmea_gsa(&mut self, gsa: NmeaGsa)
        ensures
            *final(self) == *old(self),
    {
    }

    /// Takes note of a NmeaGsv record; the status takes nothing from it.
    pub fn amend_with_nmea_gsv(&mut self, gsv: NmeaGsv)
        ensures
            *final(self) == *old(self),
    {
    }

    /// Takes note of a NmeaRmc record; the status takes nothing from it.
    pub fn amend_with_nmea_rmc(&mut self, rmc: NmeaRmc)
        ensures
            *final(self) == *old(self),
    {
    }

    /// Takes note of a UbxNavPvt record; the status takes nothing from it.
    pub fn amend_with_ubx_nav_pvt(&mut self, nav: UbxNavPvt)
        ensures
            *final(self) == *old(self),
    {
    }

    /// Takes note of a UbxNavDop record; the status takes nothing from it.
    pub fn amend_with_ubx_nav_dop(&mut self, dop: UbxNavDop)
        ensures
            *final(self) == *old(self),
    {
    }
}

impl Default for GpsStatus {
    fn default() -> (r: Self)
        ensures
            r == Self::new(),
    {
        Self::new()
    }
}

/// Where an acknowledged configuration command stands.
#[derive(Clone, Copy, Debug, PartialEq, Eq, Structural)]
pub enum UbxAckState {
    Idle,
    Waiting,
    GotAck,
    GotNack,
}

impl UbxAckState {
    /// The state that a stored byte names; unknown bytes give `Idle`.
    pub open spec fn of_u8(value: u8) -> UbxAckState {
        if value == 1 {
            UbxAckState::Waiting
        } else if value == 2 {
            UbxAckState::GotAck
        } else if value == 3 {
            UbxAckState::GotNack
        } else {
            UbxAckState::Idle
        }
    }

    pub fn from_u8(value: u8) -> (r: Self)
        ensures
            r == Self::of_u8(value),
    {
        match value {
            0 => Self::Idle,
            1 => Self::Waiting,
            2 => Self::GotAck,
            3 => Self::GotNack,
            _ => Self::Idle,
        }
    }
}

impl Default for UbxAckState {
    fn default() -> (r: Self)
        ensures
            r == UbxAckState::Idle,
    {
        UbxAckState::Idle
    }
}

} // verus!
