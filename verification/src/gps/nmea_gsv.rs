use vstd::prelude::*;

use crate::gps::nmea_gga::talker_is;
use crate::gps::nmea_parser::{nmea_fields, parse_int, spec_parse_int, NmeaFields};

verus! {

/// Satellites in view.
///
/// One report can span several sentences (`$GPGSV,3,1,11,...`, `$GPGSV,3,2,11,...`).
/// The fields are: 0 talker and type, 1 number of GSV sentences, 2 sentence number,
/// 3 satellites in view, then four fields (PRN, elevation, azimuth, SNR) per satellite.
#[derive(Clone, Copy, Debug, PartialEq, Eq, Structural)]
pub struct NmeaGsv {
    pub satellites_in_view: u8,
}

/// What `NmeaGsv::parse` returns for a sentence payload.
pub open spec fn spec_parse_gsv(record: Seq<u8>) -> Option<NmeaGsv> {
    let f = nmea_fields(record);
    if f.len() < 4 || !talker_is(f[0], 71, 83, 86) {
        None
    } else {
        let count = spec_parse_int(f[1]);
        let number = spec_parse_int(f[2]);
        let in_view = spec_parse_int(f[3]);
        if count is Some && 1 <= count->0 <= 255 && number is Some && 1 <= number->0 <= count->0
            && in_view is Some && in_view->0 <= 255 {
            Some(NmeaGsv { satellites_in_view: in_view->0 as u8 })
        } else {
            None
        }
    }
}

impl NmeaGsv {
    #[verifier::allow_in_spec]
    pub fn new() -> Self
        returns
            (Self { satellites_in_view: 0 }),
    {
        Self { satellites_in_view: 0 }
    }

    /// Parses the payload of a GSV sentence; the per-satellite fields are not read.
    pub fn parse(record: &[u8]) -> (r: Option<Self>)
        ensures
            r == spec_parse_gsv(record@),
    {
        let mut fields = NmeaFields::new(record);
        let talker_id = match fields.next() {
            Some(t) => t,
            None => {
                return None;
            },
        };
        if talker_id.len() != 5 || talker_id[2] != 71 || talker_id[3] != 83 || talker_id[4] != 86 {
            return None;
        }
        let mut ret = Self::new();
        let raw = match fields.next() {
            Some(t) => t,
            None => {
                return None;
            },
        };
        let message_count = match parse_int(raw) {
            Some(v) => v,
            None => {
                return None;
            },
        };
        if message_count == 0 || message_count > 255 {
            return None;
        }
        let raw = match fields.next() {
            Some(t) => t,
            None => {
                return None;
            },
        };
        let message_number = match parse_int(raw) {
            Some(v) => v,
            None => {
                return None;
            },
        };
        if message_number == 0 || message_number > message_count {
            return None;
        }
        let raw = match fields.next() {
            Some(t) => t,
            None => {
                return None;
            },
        };
        let satellites_in_view = match parse_int(raw) {
            Some(v) => v,
            None => {
                return None;
            },
        };
        if satellites_in_view > 255 {
            return None;
        }
        ret.satellites_in_view = satellites_in_view as u8;
        Some(ret)
    }
}

impl Default for NmeaGsv {
    fn default() -> (r: Self)
        ensures
            r == Self::new(),
    {
        Self::new()
    }
}

/// A GSV report gives the satellites in view from field 3, on a sentence whose number (field 2)
/// is between 1 and the sentence count of field 1.
pub proof fn lemma_gsv_fields(record: Seq<u8>)
    ensures
        spec_parse_gsv(record) matches Some(g) ==> {
            let f = nmea_fields(record);
            &&& f.len() >= 4
            &&& talker_is(f[0], 71, 83, 86)
            &&& g.satellites_in_view == spec_parse_int(f[3])->0
            &&& 1 <= spec_parse_int(f[2])->0 <= spec_parse_int(f[1])->0 <= 255
        },
{
}

} // verus!
