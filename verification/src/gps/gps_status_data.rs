use vstd::prelude::*;
use crate::gps::nmea::nmea_gsa::NmeaGsa;
use crate::gps::nmea_gga::NmeaGga;
use crate::gps::nmea_gsv::NmeaGsv;
use crate::gps::nmea_rmc::NmeaRmc;
use crate::gps::ubx::ubx_nav_dop::UbxNavDop;
use crate::gps::ubx_nav_pvt::UbxNavPvt;

verus! {

/// Receiver status derived from the records; it holds nothing yet.
#[derive(Clone, Copy, Debug, PartialEq, Eq, Structural)]
pub struct GpsStatusData {}

impl GpsStatusData {
    #[verifier::allow_in_spec]
    pub fn new() -> Self
        returns
            (Self {  }),
    {
        Self {  }
    }

    /// Takes note of a NmeaGga record; the record keeps nothing from it.
    pub fn amend_with_nmea_gga(&mut self, gga: NmeaGga)
        ensures
            *final(self) == *old(self),
    {
    }

    /// Takes note of a NmeaGsa record; the record keeps nothing from it.
    pub fn amend_with_nmea_gsa(&mut self, gsa: NmeaGsa)
        ensures
            *final(self) == *old(self),
    {
    }

    /// Takes note of a NmeaGsv record; the record keeps nothing from it.
    pub fn amend_with_nmea_gsv(&mut self, gsv: NmeaGsv)
        ensures
            *final(self) == *old(self),
    {
    }

    /// Takes note of a NmeaRmc record; the record keeps nothing from it.
    pub fn amend_with_nmea_rmc(&mut self, rmc: NmeaRmc)
        ensures
            *final(self) == *old(self),
    {
    }

    /// Takes note of a UbxNavPvt record; the record keeps nothing from it.
    pub fn amend_with_ubx_nav_pvt(&mut self, nav: UbxNavPvt)
        ensures
            *final(self) == *old(self),
    {
    }

    /// Takes note of a UbxNavDop record; the record keeps nothing from it.
    pub fn amend_with_ubx_nav_dop(&mut self, dop: UbxNavDop)
        ensures
            *final(self) == *old(self),
    {
    }
}

impl Default for GpsStatusData {
    fn default() -> (r: Self)
        ensures
            r == Self::new(),
    {
        Self::new()
    }
}

} // verus!
