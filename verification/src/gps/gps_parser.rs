use vstd::prelude::*;
use crate::gps::gps_config::GpsProvider;
use crate::gps::nmea_parser::{nmea_parser_step, NmeaParser};
use crate::gps::ubx_parser::{
    class_id_of, ubx_message_payload, ubx_parser_step, ubx_step_completes, UbxMessage, UbxParser,
};

verus! {

/// What a received byte completed: an NMEA sentence payload or a UBX message.
#[derive(Clone, Copy, Debug, PartialEq)]
pub enum GpsParserEvent<'a> {
    NmeaComplete(&'a [u8]),
    UbxMessage(UbxMessage<'a>),
}

/// The stream parser for the configured receiver protocol; `Idle` parses nothing.
#[derive(Clone, Copy, Debug, PartialEq)]
pub enum GpsParser {
    Nmea(NmeaParser),
    Ubx(UbxParser),
    Idle,
}

impl GpsParser {
    /// A fresh parser for an NMEA or UBX receiver; no parser for the other providers.
    pub fn new(gps_provider: GpsProvider) -> (r: Option<Self>)
        ensures
            gps_provider == GpsProvider::Nmea <==> r matches Some(GpsParser::Nmea(_)),
            gps_provider == GpsProvider::Ubx <==> r matches Some(GpsParser::Ubx(_)),
            r is None <==> (gps_provider != GpsProvider::Nmea && gps_provider != GpsProvider::Ubx),
            r matches Some(GpsParser::Nmea(p)) ==> p@ == NmeaParser::initial_view(),
            r matches Some(GpsParser::Ubx(p)) ==> p@ == UbxParser::initial_view(),
    {
        match gps_provider {
            GpsProvider::Nmea => Some(GpsParser::Nmea(NmeaParser::new())),
            GpsProvider::Ubx => Some(GpsParser::Ubx(UbxParser::new())),
            _ => None,
        }
    }

    /// A fresh parser: UBX for a UBX receiver, NMEA for every other provider.
    pub fn new_unwrapped(gps_provider: GpsProvider) -> (r: Self)
        ensures
            gps_provider == GpsProvider::Ubx ==> (r matches GpsParser::Ubx(p) && p@
                == UbxParser::initial_view()),
            gps_provider != GpsProvider::Ubx ==> (r matches GpsParser::Nmea(p) && p@
                == NmeaParser::initial_view()),
    {
        match gps_provider {
            GpsProvider::Ubx => GpsParser::Ubx(UbxParser::new()),
            _ => GpsParser::Nmea(NmeaParser::new()),
        }
    }

    /// Feeds one byte to the parser of the configured protocol and reports what it completed.
    pub fn on_data_received(&mut self, data: u8) -> (r: Option<GpsParserEvent<'_>>)
        ensures
            match *old(self) {
                GpsParser::Nmea(p) => {
                    &&& *final(self) matches GpsParser::Nmea(q)
                    &&& q@ == nmea_parser_step(p@, data)
                    &&& r.is_some() == q@.complete
                    &&& r matches Some(e) ==> (e matches GpsParserEvent::NmeaComplete(s) && s@
                        == q@.payload)
                },
                GpsParser::Ubx(p) => {
                    &&& *final(self) matches GpsParser::Ubx(q)
                    &&& q@ == ubx_parser_step(p@, data)
                    &&& r.is_some() == ubx_step_completes(p@, data)
                    &&& r matches Some(e) ==> (e matches GpsParserEvent::UbxMessage(m) && m.class
                        == class_id_of(p@.class) && m.id == p@.id && m.payload@
                        == ubx_message_payload(p@))
                },
                GpsParser::Idle => *final(self) == GpsParser::Idle && r is None,
            },
    {
        match self {
            GpsParser::Nmea(parser) => {
                if parser.on_data_received(data) {
                    match parser.payload() {
                        Some(payload) => Some(GpsParserEvent::NmeaComplete(payload)),
                        None => None,
                    }
                } else {
                    None
                }
            },
            GpsParser::Ubx(parser) => match parser.on_data_received(data) {
                Some(message) => Some(GpsParserEvent::UbxMessage(message)),
                None => None,
            },
            GpsParser::Idle => None,
        }
    }
}

impl Default for GpsParser {
    fn default() -> (r: Self)
        ensures
            r == GpsParser::Idle,
    {
        GpsParser::Idle
    }
}

} // verus!
