use vstd::prelude::*;
use crate::gps::ubx::ubx_ids::{UbxCfgId, UbxClassId};
use crate::gps::ubx_frame::{
    fill_ubx_frame, le_bytes_i32, le_bytes_u16, lemma_le_i32_roundtrip, lemma_le_u16_roundtrip,
    write_i32, write_u16,
};
use crate::gps::ubx_parser::{le_i32, le_u16, le_value2, lemma_le_unsigned, ubx_frame, Parse};

verus! {

/// The signed byte whose two's complement bits are `b`.
pub open spec fn u8_as_i8(b: u8) -> i8 {
    if b < 128 {
        b as i8
    } else {
        (b - 256) as i8
    }
}

/// The two's complement bits of a signed byte.
pub open spec fn i8_as_u8(v: i8) -> u8 {
    if v >= 0 {
        v as u8
    } else {
        (v + 256) as u8
    }
}

fn u8_to_i8(b: u8) -> (r: i8)
    ensures
        r == u8_as_i8(b),
{
    if b < 128 {
        b as i8
    } else {
        ((b as i16) - 256) as i8
    }
}

fn i8_to_u8(v: i8) -> (r: u8)
    ensures
        r == i8_as_u8(v),
{
    if v >= 0 {
        v as u8
    } else {
        ((v as i16) + 256) as u8
    }
}

/// Navigation engine settings.
#[derive(Clone, Copy, Debug, PartialEq)]
pub struct UbxCfgNav5 {
    pub mask: u16,
    pub dynamic_platform_model: u8,
    pub fixing_mode: u8,
    pub fixed_altitude_msl_m_x100: i32,
    pub fixed_altitude_variance_m2_x100000: i32,
    pub min_elevation_degrees: i8,
    pub dr_limit: u8,
    pub pdop_x10: u16,
    pub tdop_x10: u16,
    pub p_accuracy_mask: u16,
    pub t_accuracy_mask: u16,
    pub static_hold_threshold_cmps: u8,
    pub dgnss_timeout_s: u8,
    pub cno_threshold_sv_count: u8,
    pub cno_threshold_dbhz: u8,
    pub reserved1: u16,
    pub static_hold_distance_threshold_m: u16,
    pub utc_standard: u8,
    pub reserved2: [u8; 5],
}

impl UbxCfgNav5 {
    pub const CLASS: UbxClassId = UbxClassId::Cfg;
    pub const ID: u8 = UbxCfgId::RATE;
    pub const PAYLOAD_LEN_U16: u16 = 36;
    pub const PAYLOAD_LEN: usize = 36;
    pub const FRAME_LEN: usize = 44;

    /// All settings zero; the model argument is not stored.
    pub fn new(model: u8) -> (r: Self)
        ensures
            r.is_zero(),
    {
        let r = Self {
            mask: 0,
            dynamic_platform_model: 0,
            fixing_mode: 0,
            fixed_altitude_msl_m_x100: 0,
            fixed_altitude_variance_m2_x100000: 0,
            min_elevation_degrees: 0,
            dr_limit: 0,
            pdop_x10: 0,
            tdop_x10: 0,
            p_accuracy_mask: 0,
            t_accuracy_mask: 0,
            static_hold_threshold_cmps: 0,
            dgnss_timeout_s: 0,
            cno_threshold_sv_count: 0,
            cno_threshold_dbhz: 0,
            reserved1: 0,
            static_hold_distance_threshold_m: 0,
            utc_standard: 0,
            reserved2: [0u8; 5],
        };
        assert(r.reserved2@ =~= Seq::new(5, |i: int| 0u8));
        r
    }

    /// Every setting is zero and the reserved bytes are zero.
    pub open spec fn is_zero(self) -> bool {
        &&& self.reserved2@ == Seq::new(5, |i: int| 0u8)
        &&& self.mask == 0
        &&& self.dynamic_platform_model == 0
        &&& self.fixing_mode == 0
        &&& self.fixed_altitude_msl_m_x100 == 0
        &&& self.fixed_altitude_variance_m2_x100000 == 0
        &&& self.min_elevation_degrees == 0
        &&& self.dr_limit == 0
        &&& self.pdop_x10 == 0
        &&& self.tdop_x10 == 0
        &&& self.p_accuracy_mask == 0
        &&& self.t_accuracy_mask == 0
        &&& self.static_hold_threshold_cmps == 0
        &&& self.dgnss_timeout_s == 0
        &&& self.cno_threshold_sv_count == 0
        &&& self.cno_threshold_dbhz == 0
        &&& self.reserved1 == 0
        &&& self.static_hold_distance_threshold_m == 0
        &&& self.utc_standard == 0
    }

    /// The settings that a 36-byte payload encodes; the reserved bytes are read as zero.
    pub open spec fn from_payload_matches(p: Seq<u8>, m: Self) -> bool {
        &&& p.len() == 36
        &&& m.reserved2@ == Seq::new(5, |i: int| 0u8)
        &&& m.mask == le_u16(p, 0)
        &&& m.dynamic_platform_model == p[2]
        &&& m.fixing_mode == p[3]
        &&& m.fixed_altitude_msl_m_x100 == le_i32(p, 4)
        &&& m.fixed_altitude_variance_m2_x100000 == le_i32(p, 8)
        &&& m.min_elevation_degrees == u8_as_i8(p[12])
        &&& m.dr_limit == p[13]
        &&& m.pdop_x10 == le_u16(p, 14)
        &&& m.tdop_x10 == le_u16(p, 16)
        &&& m.p_accuracy_mask == le_u16(p, 18)
        &&& m.t_accuracy_mask == le_u16(p, 20)
        &&& m.static_hold_threshold_cmps == p[22]
        &&& m.dgnss_timeout_s == p[23]
        &&& m.cno_threshold_sv_count == p[24]
        &&& m.cno_threshold_dbhz == p[25]
        &&& m.reserved1 == le_u16(p, 26)
        &&& m.static_hold_distance_threshold_m == le_u16(p, 28)
        &&& m.utc_standard == p[30]
    }

    /// The payload that encodes these settings; bytes 31 to 35 are zero.
    pub open spec fn payload_bytes(self) -> Seq<u8> {
        le_bytes_u16(self.mask) + seq![self.dynamic_platform_model] + seq![self.fixing_mode] + le_bytes_i32(self.fixed_altitude_msl_m_x100) + le_bytes_i32(self.fixed_altitude_variance_m2_x100000) + seq![i8_as_u8(self.min_elevation_degrees)] + seq![self.dr_limit] + le_bytes_u16(self.pdop_x10) + le_bytes_u16(self.tdop_x10) + le_bytes_u16(self.p_accuracy_mask) + le_bytes_u16(self.t_accuracy_mask) + seq![self.static_hold_threshold_cmps] + seq![self.dgnss_timeout_s] + seq![self.cno_threshold_sv_count] + seq![self.cno_threshold_dbhz] + le_bytes_u16(self.reserved1) + le_bytes_u16(self.static_hold_distance_threshold_m) + seq![self.utc_standard] + Seq::new(5, |i: int| 0u8)
    }

    pub fn parse(payload: &[u8]) -> (r: Option<UbxCfgNav5>)
        ensures
            r.is_some() == (payload@.len() == 36),
            r matches Some(m) ==> Self::from_payload_matches(payload@, m),
    {
        if payload.len() != Self::PAYLOAD_LEN {
            return None;
        }
        let r = UbxCfgNav5 {
                mask: Parse::try_read_u16(&payload[0..2])?,
                dynamic_platform_model: payload[2],
                fixing_mode: payload[3],
                fixed_altitude_msl_m_x100: Parse::try_read_i32(&payload[4..8])?,
                fixed_altitude_variance_m2_x100000: Parse::try_read_i32(&payload[8..12])?,
                min_elevation_degrees: u8_to_i8(payload[12]),
                dr_limit: payload[13],
                pdop_x10: Parse::try_read_u16(&payload[14..16])?,
                tdop_x10: Parse::try_read_u16(&payload[16..18])?,
                p_accuracy_mask: Parse::try_read_u16(&payload[18..20])?,
                t_accuracy_mask: Parse::try_read_u16(&payload[20..22])?,
                static_hold_threshold_cmps: payload[22],
                dgnss_timeout_s: payload[23],
                cno_threshold_sv_count: payload[24],
                cno_threshold_dbhz: payload[25],
                reserved1: Parse::try_read_u16(&payload[26..28])?,
                static_hold_distance_threshold_m: Parse::try_read_u16(&payload[28..32])?,
                utc_standard: payload[30],
            reserved2: [0u8; 5],
        };
        assert(r.reserved2@ =~= Seq::new(5, |i: int| 0u8));
        Some(r)
    }

    pub fn make_payload(self) -> (r: [u8; 36])
        ensures
            r@ == self.payload_bytes(),
    {
        let mut payload = [0u8; 36];
        write_u16(&mut payload, 0, self.mask);
        payload[2] = self.dynamic_platform_model;
        payload[3] = self.fixing_mode;
        write_i32(&mut payload, 4, self.fixed_altitude_msl_m_x100);
        write_i32(&mut payload, 8, self.fixed_altitude_variance_m2_x100000);
        payload[12] = i8_to_u8(self.min_elevation_degrees);
        payload[13] = self.dr_limit;
        write_u16(&mut payload, 14, self.pdop_x10);
        write_u16(&mut payload, 16, self.tdop_x10);
        write_u16(&mut payload, 18, self.p_accuracy_mask);
        write_u16(&mut payload, 20, self.t_accuracy_mask);
        payload[22] = self.static_hold_threshold_cmps;
        payload[23] = self.dgnss_timeout_s;
        payload[24] = self.cno_threshold_sv_count;
        payload[25] = self.cno_threshold_dbhz;
        write_u16(&mut payload, 26, self.reserved1);
        write_u16(&mut payload, 28, self.static_hold_distance_threshold_m);
        payload[30] = self.utc_standard;
        assert(payload@ =~= self.payload_bytes());
        payload
    }

    /// The whole frame: sync bytes, header, payload and Fletcher checksum.
    pub fn make_frame(self) -> (r: [u8; 44])
        ensures
            r@ == ubx_frame(Self::CLASS.code(), Self::ID, self.payload_bytes()),
    {
        let payload = self.make_payload();
        let mut frame = [0u8; 44];
        fill_ubx_frame(&mut frame, Self::CLASS.value(), Self::ID, &payload);
        frame
    }
}

/// Parsing the payload that the settings make gives the settings back, when their
/// reserved bytes are zero (parsing does not read them).
#[verifier::spinoff_prover]
#[verifier::rlimit(80)]
/// The CFG-NAV5 layout of the payload that settings make: the mask as a little-endian word at
/// byte 0, the dynamic platform model at byte 2, the fix mode at byte 3, the fixed altitude and
/// its variance at bytes 4 and 8, the minimum elevation at 12, the dead-reckoning limit at 13,
/// PDOP, TDOP, position and time accuracy masks at 14, 16, 18 and 20, the static-hold
/// threshold, DGNSS timeout and the two C/N0 thresholds at 22 to 25, the reserved word at 26,
/// the static-hold distance at 28, the UTC standard at 30, and zeros at 31 to 35.
pub proof fn lemma_cfg_nav5_payload_layout(m: UbxCfgNav5)
    ensures
        ({
            let p = m.payload_bytes();
            &&& p.len() == 36
            &&& le_u16(p, 0) == m.mask
            &&& p[2] == m.dynamic_platform_model
            &&& p[3] == m.fixing_mode
            &&& le_i32(p, 4) == m.fixed_altitude_msl_m_x100
            &&& le_i32(p, 8) == m.fixed_altitude_variance_m2_x100000
            &&& u8_as_i8(p[12]) == m.min_elevation_degrees
            &&& p[13] == m.dr_limit
            &&& le_u16(p, 14) == m.pdop_x10
            &&& le_u16(p, 16) == m.tdop_x10
            &&& le_u16(p, 18) == m.p_accuracy_mask
            &&& le_u16(p, 20) == m.t_accuracy_mask
            &&& p[22] == m.static_hold_threshold_cmps
            &&& p[23] == m.dgnss_timeout_s
            &&& p[24] == m.cno_threshold_sv_count
            &&& p[25] == m.cno_threshold_dbhz
            &&& le_u16(p, 26) == m.reserved1
            &&& le_u16(p, 28) == m.static_hold_distance_threshold_m
            &&& p[30] == m.utc_standard
            &&& forall|i: int| 31 <= i < 36 ==> p[i] == 0
        }),
{
    let p = m.payload_bytes();
    lemma_le_u16_roundtrip(p, 0, m.mask);
    lemma_le_i32_roundtrip(p, 4, m.fixed_altitude_msl_m_x100);
    lemma_le_i32_roundtrip(p, 8, m.fixed_altitude_variance_m2_x100000);
    lemma_le_u16_roundtrip(p, 14, m.pdop_x10);
    lemma_le_u16_roundtrip(p, 16, m.tdop_x10);
    lemma_le_u16_roundtrip(p, 18, m.p_accuracy_mask);
    lemma_le_u16_roundtrip(p, 20, m.t_accuracy_mask);
    lemma_le_u16_roundtrip(p, 26, m.reserved1);
    lemma_le_u16_roundtrip(p, 28, m.static_hold_distance_threshold_m);
    assert(u8_as_i8(i8_as_u8(m.min_elevation_degrees)) == m.min_elevation_degrees);
}

/// The CFG-NAV5 layout that parsing reads: each setting from the same byte position as the
/// payload that settings make (see `lemma_cfg_nav5_payload_layout`), the words as the numeric
/// value of their little-endian bytes.
pub proof fn lemma_cfg_nav5_parse_layout(p: Seq<u8>, m: UbxCfgNav5)
    requires
        UbxCfgNav5::from_payload_matches(p, m),
    ensures
        p.len() == 36,
        m.mask == le_value2(p, 0),
        m.dynamic_platform_model == p[2],
        m.fixing_mode == p[3],
        m.fixed_altitude_msl_m_x100 == le_i32(p, 4),
        m.fixed_altitude_variance_m2_x100000 == le_i32(p, 8),
        m.min_elevation_degrees == u8_as_i8(p[12]),
        m.dr_limit == p[13],
        m.pdop_x10 == le_value2(p, 14),
        m.tdop_x10 == le_value2(p, 16),
        m.p_accuracy_mask == le_value2(p, 18),
        m.t_accuracy_mask == le_value2(p, 20),
        m.static_hold_threshold_cmps == p[22],
        m.dgnss_timeout_s == p[23],
        m.cno_threshold_sv_count == p[24],
        m.cno_threshold_dbhz == p[25],
        m.reserved1 == le_value2(p, 26),
        m.static_hold_distance_threshold_m == le_value2(p, 28),
        m.utc_standard == p[30],
{
    lemma_le_unsigned(p, 0);
    lemma_le_unsigned(p, 14);
    lemma_le_unsigned(p, 16);
    lemma_le_unsigned(p, 18);
    lemma_le_unsigned(p, 20);
    lemma_le_unsigned(p, 26);
    lemma_le_unsigned(p, 28);
}

pub proof fn lemma_cfg_nav5_roundtrip(m: UbxCfgNav5)
    requires
        m.reserved2@ == Seq::new(5, |i: int| 0u8),
    ensures
        UbxCfgNav5::from_payload_matches(m.payload_bytes(), m),
{
    let p = m.payload_bytes();
    lemma_le_u16_roundtrip(p, 0, m.mask);
    lemma_le_i32_roundtrip(p, 4, m.fixed_altitude_msl_m_x100);
    lemma_le_i32_roundtrip(p, 8, m.fixed_altitude_variance_m2_x100000);
    lemma_le_u16_roundtrip(p, 14, m.pdop_x10);
    lemma_le_u16_roundtrip(p, 16, m.tdop_x10);
    lemma_le_u16_roundtrip(p, 18, m.p_accuracy_mask);
    lemma_le_u16_roundtrip(p, 20, m.t_accuracy_mask);
    lemma_le_u16_roundtrip(p, 26, m.reserved1);
    lemma_le_u16_roundtrip(p, 28, m.static_hold_distance_threshold_m);
}

impl Default for UbxCfgNav5 {
    fn default() -> (r: Self)
        ensures
            r.is_zero(),
    {
        Self::new(0)
    }
}

/// Set the output rate of a message (the two-byte form).
#[derive(Clone, Copy, Debug, PartialEq, Eq, Structural)]
pub struct UbxCfgMsgSet {
    pub class: u8,
    pub id: u8,
    pub rate: u8,
}

impl UbxCfgMsgSet {
    pub const CLASS: u8 = 0x06;
    pub const ID: u8 = 0x01;
    pub const PAYLOAD_LEN: usize = 2;

    #[verifier::allow_in_spec]
    pub fn new() -> Self
        returns
            (Self { class: 0, id: 0, rate: 0 }),
    {
        Self { class: 0, id: 0, rate: 0 }
    }

    /// Rejects every payload whose length is not two; a two-byte payload has no rate byte
    /// to read.
    pub fn parse(payload: &[u8]) -> (r: Option<UbxCfgMsgSet>)
        requires
            payload@.len() != 2,
        ensures
            r is None,
    {
        if payload.len() != Self::PAYLOAD_LEN {
            return None;
        }
        Some(UbxCfgMsgSet { class: payload[0], id: payload[1], rate: payload[2] })
    }
}

impl Default for UbxCfgMsgSet {
    fn default() -> (r: Self)
        ensures
            r == Self::new(),
    {
        Self::new()
    }
}

} // verus!
