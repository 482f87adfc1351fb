use vstd::prelude::*;

verus! {

// A UBX frame is: sync bytes 0xB5 0x62, class, id, a little-endian 16-bit payload
// length, the payload, and a two-byte Fletcher checksum over class, id, length and payload.

/// Position of the frame assembler within a UBX frame.
#[derive(Clone, Copy, Debug, PartialEq, Eq, Structural)]
pub enum UbxState {
    WaitingForSync1,
    WaitingForSync2,
    Class,
    Id,
    LengthLow,
    LengthHigh,
    Payload,
    ChecksumA,
    ChecksumB,
}

/// UBX message classes.
#[derive(Clone, Copy, Debug, PartialEq, Eq, Structural)]
pub enum UbxClassId {
    /// Navigation Results Messages: Position, Speed, Time, Acceleration, Heading, DOP, SVs used.
    Nav,
    /// Receiver Manager Messages: Satellite Status, RTC Status.
    Rxm,
    /// Information Messages: Printf-Style Messages, with IDs such as Error, Warning, Notice.
    Inf,
    /// Ack/Nak Messages: Acknowledge or Reject messages to UBX-CFG input messages.
    Ack,
    /// Configuration Input Messages: Configure the receiver.
    Cfg,
    /// Firmware Update Messages: Memory/Flash erase/write, Reboot, Flash identification, etc.
    Upd,
    /// Monitoring Messages: Communication Status, Stack Usage, Task Status.
    Mon,
    /// Assist Now Aiding Messages: Ephemeris, Almanac, other A-GPS data input.
    Aid,
    /// Timing Messages: Time Pulse Output, Time Mark Results.
    Tim,
    /// External Sensor Fusion Messages: External Sensor Measurements and Status Information.
    Esf,
    /// Multiple GNSS Assistance Messages: Assistance data for various GNSS.
    Mga,
    /// Logging Messages: Log creation, deletion, info and retrieval.
    Log,
    /// Security Feature Messages.
    Sec,
    /// High Rate Navigation Results Messages: High rate time, position, speed, heading.
    Hnr,
    /// Any class byte not listed above (it stands for the reserved value 0xff).
    Unknown,
}

/// The class that a class byte names; unlisted bytes give `Unknown`.
pub open spec fn class_id_of(value: u8) -> UbxClassId {
    if value == 0x01 {
        UbxClassId::Nav
    } else if value == 0x02 {
        UbxClassId::Rxm
    } else if value == 0x04 {
        UbxClassId::Inf
    } else if value == 0x05 {
        UbxClassId::Ack
    } else if value == 0x06 {
        UbxClassId::Cfg
    } else if value == 0x09 {
        UbxClassId::Upd
    } else if value == 0x0a {
        UbxClassId::Mon
    } else if value == 0x0b {
        UbxClassId::Aid
    } else if value == 0x0d {
        UbxClassId::Tim
    } else if value == 0x10 {
        UbxClassId::Esf
    } else if value == 0x13 {
        UbxClassId::Mga
    } else if value == 0x21 {
        UbxClassId::Log
    } else if value == 0x27 {
        UbxClassId::Sec
    } else if value == 0x28 {
        UbxClassId::Hnr
    } else {
        UbxClassId::Unknown
    }
}

impl UbxClassId {
    /// The class byte on the wire.
    pub open spec fn code(self) -> u8 {
        match self {
            UbxClassId::Nav => 0x01,
            UbxClassId::Rxm => 0x02,
            UbxClassId::Inf => 0x04,
            UbxClassId::Ack => 0x05,
            UbxClassId::Cfg => 0x06,
            UbxClassId::Upd => 0x09,
            UbxClassId::Mon => 0x0a,
            UbxClassId::Aid => 0x0b,
            UbxClassId::Tim => 0x0d,
            UbxClassId::Esf => 0x10,
            UbxClassId::Mga => 0x13,
            UbxClassId::Log => 0x21,
            UbxClassId::Sec => 0x27,
            UbxClassId::Hnr => 0x28,
            UbxClassId::Unknown => 0xff,
        }
    }

    pub fn from_u8(value: u8) -> (r: Self)
        ensures
            r == class_id_of(value),
    {
        match value {
            0x01 => Self::Nav,
            0x02 => Self::Rxm,
            0x04 => Self::Inf,
            0x05 => Self::Ack,
            0x06 => Self::Cfg,
            0x09 => Self::Upd,
            0x0a => Self::Mon,
            0x0b => Self::Aid,
            0x0d => Self::Tim,
            0x10 => Self::Esf,
            0x13 => Self::Mga,
            0x21 => Self::Log,
            0x27 => Self::Sec,
            0x28 => Self::Hnr,
            _ => Self::Unknown,
        }
    }

    /// The class byte on the wire.
    pub fn value(self) -> (r: u8)
        ensures
            r == self.code(),
    {
        match self {
            UbxClassId::Nav => 0x01,
            UbxClassId::Rxm => 0x02,
            UbxClassId::Inf => 0x04,
            UbxClassId::Ack => 0x05,
            UbxClassId::Cfg => 0x06,
            UbxClassId::Upd => 0x09,
            UbxClassId::Mon => 0x0a,
            UbxClassId::Aid => 0x0b,
            UbxClassId::Tim => 0x0d,
            UbxClassId::Esf => 0x10,
            UbxClassId::Mga => 0x13,
            UbxClassId::Log => 0x21,
            UbxClassId::Sec => 0x27,
            UbxClassId::Hnr => 0x28,
            UbxClassId::Unknown => 0xff,
        }
    }
}

/// A received UBX message: its class, its id and its payload bytes.
#[derive(Clone, Copy, Debug, PartialEq)]
pub struct UbxMessage<'a> {
    pub class: UbxClassId,
    pub id: u8,
    pub payload: &'a [u8],
}

impl<'a> UbxMessage<'a> {
    pub fn new(class: UbxClassId, id: u8, payload: &'a [u8]) -> (r: Self)
        ensures
            r.class == class,
            r.id == id,
            r.payload@ == payload@,
    {
        Self { class, id, payload }
    }

    pub fn new_from_u8_class(class: u8, id: u8, payload: &'a [u8]) -> (r: Self)
        ensures
            r.class == class_id_of(class),
            r.id == id,
            r.payload@ == payload@,
    {
        let class = UbxClassId::from_u8(class);
        Self { class, id, payload }
    }
}

/// The largest payload that the assembler accepts.
pub open spec fn ubx_max_payload() -> nat {
    256
}

/// Addition modulo 256, as the checksum bytes accumulate.
pub open spec fn add_wrap(a: u8, b: u8) -> u8 {
    ((a + b) % 256) as u8
}

/// What the frame assembler holds: its position in the frame, the header fields, the
/// payload buffer, the running checksum and the first received checksum byte.
#[verifier::ext_equal]
pub struct UbxParserView {
    pub state: UbxState,
    pub class: u8,
    pub id: u8,
    pub payload_length: nat,
    pub payload_index: nat,
    pub buffer: Seq<u8>,
    pub checksum_a: u8,
    pub checksum_b: u8,
    pub received_checksum_a: u8,
}

/// The assembler with a byte added to its running checksum.
pub open spec fn ubx_with_checksum(p: UbxParserView, byte: u8) -> UbxParserView {
    let a = add_wrap(p.checksum_a, byte);
    UbxParserView { checksum_a: a, checksum_b: add_wrap(p.checksum_b, a), ..p }
}

/// One received byte applied to the assembler.
pub open spec fn ubx_parser_step(p: UbxParserView, byte: u8) -> UbxParserView {
    match p.state {
        UbxState::WaitingForSync1 => UbxParserView {
            state: if byte == 0xB5 {
                UbxState::WaitingForSync2
            } else {
                UbxState::WaitingForSync1
            },
            ..p
        },
        UbxState::WaitingForSync2 => UbxParserView {
            state: if byte == 0x62 {
                UbxState::Class
            } else if byte == 0xB5 {
                UbxState::WaitingForSync2
            } else {
                UbxState::WaitingForSync1
            },
            ..p
        },
        UbxState::Class => UbxParserView {
            state: UbxState::Id,
            class: byte,
            checksum_a: byte,
            checksum_b: byte,
            ..p
        },
        UbxState::Id => UbxParserView {
            state: UbxState::LengthLow,
            id: byte,
            ..ubx_with_checksum(p, byte)
        },
        UbxState::LengthLow => UbxParserView {
            state: UbxState::LengthHigh,
            payload_length: byte as nat,
            ..ubx_with_checksum(p, byte)
        },
        UbxState::LengthHigh => {
            let len: nat = p.payload_length + 256 * (byte as nat);
            let q = ubx_with_checksum(p, byte);
            if len > ubx_max_payload() {
                UbxParserView { state: UbxState::WaitingForSync1, payload_length: len, ..q }
            } else if len == 0 {
                UbxParserView { state: UbxState::ChecksumA, payload_length: len, ..q }
            } else {
                UbxParserView {
                    state: UbxState::Payload,
                    payload_length: len,
                    payload_index: 0,
                    ..q
                }
            }
        },
        UbxState::Payload => {
            let q = ubx_with_checksum(p, byte);
            UbxParserView {
                state: if p.payload_index + 1 == p.payload_length {
                    UbxState::ChecksumA
                } else {
                    UbxState::Payload
                },
                buffer: p.buffer.update(p.payload_index as int, byte),
                payload_index: p.payload_index + 1,
                ..q
            }
        },
        UbxState::ChecksumA => UbxParserView {
            state: UbxState::ChecksumB,
            received_checksum_a: byte,
            ..p
        },
        UbxState::ChecksumB => UbxParserView { state: UbxState::WaitingForSync1, ..p },
    }
}

/// Whether the byte completes a frame whose checksum matches.
pub open spec fn ubx_step_completes(p: UbxParserView, byte: u8) -> bool {
    p.state == UbxState::ChecksumB && p.received_checksum_a == p.checksum_a && byte == p.checksum_b
}

/// The payload of the frame held by the assembler.
pub open spec fn ubx_message_payload(p: UbxParserView) -> Seq<u8> {
    p.buffer.take(p.payload_length as int)
}

/// Assembles UBX frames from a byte stream and hands out each frame whose checksum matches.
#[derive(Clone, Copy, Debug, PartialEq)]
pub struct UbxParser {
    state: UbxState,
    class: u8,
    id: u8,
    payload_length: usize,
    payload_index: usize,
    payload: [u8; 256],
    checksum_a: u8,
    checksum_b: u8,
    received_checksum_a: u8,
}

impl View for UbxParser {
    type V = UbxParserView;

    closed spec fn view(&self) -> UbxParserView {
        UbxParserView {
            state: self.state,
            class: self.class,
            id: self.id,
            payload_length: self.payload_length as nat,
            payload_index: self.payload_index as nat,
            buffer: self.payload@,
            checksum_a: self.checksum_a,
            checksum_b: self.checksum_b,
            received_checksum_a: self.received_checksum_a,
        }
    }
}

impl UbxParser {
    pub const MAX_PAYLOAD_SIZE: usize = 256;
    pub const SYNC_BYTE_1: u8 = 0xB5;
    pub const SYNC_BYTE_2: u8 = 0x62;

    #[verifier::type_invariant]
    spec fn wf(self) -> bool {
        &&& self.state == UbxState::Payload ==> self.payload_index < self.payload_length <= 256
        &&& self.state == UbxState::LengthHigh ==> self.payload_length <= 256
        &&& (self.state == UbxState::ChecksumA || self.state == UbxState::ChecksumB)
            ==> self.payload_length <= 256
    }

    pub open spec fn initial_view() -> UbxParserView {
        UbxParserView {
            state: UbxState::WaitingForSync1,
            class: 0,
            id: 0,
            payload_length: 0,
            payload_index: 0,
            buffer: Seq::new(256, |i: int| 0u8),
            checksum_a: 0,
            checksum_b: 0,
            received_checksum_a: 0,
        }
    }

    pub fn new() -> (r: Self)
        ensures
            r@ == Self::initial_view(),
            r@.buffer.len() == ubx_max_payload(),
    {
        let r = Self {
            state: UbxState::WaitingForSync1,
            class: 0,
            id: 0,
            payload_length: 0,
            payload_index: 0,
            payload: [0u8; 256],
            checksum_a: 0,
            checksum_b: 0,
            received_checksum_a: 0,
        };
        assert(r@.buffer =~= Self::initial_view().buffer);
        r
    }

    /// Back to waiting for a frame, with the length, index and checksums cleared.
    fn reset(&mut self)
        ensures
            final(self)@ == (UbxParserView {
                state: UbxState::WaitingForSync1,
                payload_length: 0,
                payload_index: 0,
                checksum_a: 0,
                checksum_b: 0,
                received_checksum_a: 0,
                ..old(self)@
            }),
    {
        self.state = UbxState::WaitingForSync1;
        self.payload_length = 0;
        self.payload_index = 0;
        self.checksum_a = 0;
        self.checksum_b = 0;
        self.received_checksum_a = 0;
    }

    fn update_checksum(&mut self, byte: u8)
        ensures
            final(self)@ == ubx_with_checksum(old(self)@, byte),
    {
        proof {
            use_type_invariant(&*self);
        }
        self.checksum_a = self.checksum_a.wrapping_add(byte);
        self.checksum_b = self.checksum_b.wrapping_add(self.checksum_a);
    }

    /// Feeds one byte; returns the message that it completes, if its checksum matched.
    pub fn on_data_received(&mut self, byte: u8) -> (r: Option<UbxMessage<'_>>)
        ensures
            final(self)@ == ubx_parser_step(old(self)@, byte),
            final(self)@.buffer.len() == ubx_max_payload(),
            r.is_some() == ubx_step_completes(old(self)@, byte),
            r matches Some(m) ==> {
                &&& m.class == class_id_of(old(self)@.class)
                &&& m.id == old(self)@.id
                &&& m.payload@ == ubx_message_payload(old(self)@)
            },
    {
        proof {
            use_type_invariant(&*self);
        }
        let mut complete = false;
        match self.state {
            UbxState::WaitingForSync1 => {
                if byte == Self::SYNC_BYTE_1 {
                    self.state = UbxState::WaitingForSync2;
                }
            },
            UbxState::WaitingForSync2 => {
                if byte == Self::SYNC_BYTE_2 {
                    self.state = UbxState::Class;
                } else if byte != Self::SYNC_BYTE_1 {
                    // A repeated first sync byte may still begin a frame.
                    self.state = UbxState::WaitingForSync1;
                }
            },
            UbxState::Class => {
                self.class = byte;
                self.checksum_a = byte;
                self.checksum_b = self.checksum_a;
                self.state = UbxState::Id;
            },
            UbxState::Id => {
                self.id = byte;
                self.update_checksum(byte);
                self.state = UbxState::LengthLow;
            },
            UbxState::LengthLow => {
                self.payload_length = byte as usize;
                self.update_checksum(byte);
                self.state = UbxState::LengthHigh;
            },
            UbxState::LengthHigh => {
                let len = self.payload_length + (byte as usize) * 256;
                self.update_checksum(byte);
                if len > Self::MAX_PAYLOAD_SIZE {
                    self.state = UbxState::WaitingForSync1;
                    self.payload_length = len;
                } else if len == 0 {
                    self.state = UbxState::ChecksumA;
                } else {
                    self.payload_index = 0;
                    self.payload_length = len;
                    self.state = UbxState::Payload;
                }
            },
            UbxState::Payload => {
                let i = self.payload_index;
                self.payload[i] = byte;
                self.update_checksum(byte);
                if i + 1 == self.payload_length {
                    self.state = UbxState::ChecksumA;
                }
                self.payload_index = i + 1;
            },
            UbxState::ChecksumA => {
                self.received_checksum_a = byte;
                self.state = UbxState::ChecksumB;
            },
            UbxState::ChecksumB => {
                complete = self.received_checksum_a == self.checksum_a && byte == self.checksum_b;
                self.state = UbxState::WaitingForSync1;
            },
        }
        if complete {
            let len = self.payload_length;
            Some(UbxMessage::new_from_u8_class(self.class, self.id, &self.payload[0..len]))
        } else {
            None
        }
    }
}

/// A run of received bytes applied in order.
pub open spec fn ubx_feed(p: UbxParserView, bytes: Seq<u8>) -> UbxParserView
    decreases bytes.len(),
{
    if bytes.len() == 0 {
        p
    } else {
        ubx_parser_step(ubx_feed(p, bytes.drop_last()), bytes.last())
    }
}

/// The UBX Fletcher checksum (`CK_A`, `CK_B`) of a byte run.
pub open spec fn ubx_checksum(bytes: Seq<u8>) -> (u8, u8)
    decreases bytes.len(),
{
    if bytes.len() == 0 {
        (0, 0)
    } else {
        let (a, b) = ubx_checksum(bytes.drop_last());
        let a2 = add_wrap(a, bytes.last());
        (a2, add_wrap(b, a2))
    }
}

/// The sum of the bytes of a run.
pub open spec fn byte_sum(bytes: Seq<u8>) -> nat
    decreases bytes.len(),
{
    if bytes.len() == 0 {
        0
    } else {
        (byte_sum(bytes.drop_last()) + bytes.last()) as nat
    }
}

/// The sum of the running byte sums of a run (each byte counted once for itself and once for
/// every byte after it).
pub open spec fn running_sum_total(bytes: Seq<u8>) -> nat
    decreases bytes.len(),
{
    if bytes.len() == 0 {
        0
    } else {
        running_sum_total(bytes.drop_last()) + byte_sum(bytes)
    }
}

/// The Fletcher checksum in closed form: `CK_A` is the sum of the bytes and `CK_B` the sum of
/// the running sums, both modulo 256.
pub proof fn lemma_ubx_checksum_sums(bytes: Seq<u8>)
    ensures
        ubx_checksum(bytes) == ((byte_sum(bytes) % 256) as u8, (running_sum_total(bytes) % 256) as u8),
    decreases bytes.len(),
{
    if bytes.len() > 0 {
        let s = bytes.drop_last();
        let b = bytes.last();
        lemma_ubx_checksum_sums(s);
        let a = byte_sum(s) as int;
        let c = running_sum_total(s) as int;
        vstd::arithmetic::div_mod::lemma_small_mod(b as nat, 256);
        vstd::arithmetic::div_mod::lemma_add_mod_noop(a, b as int, 256);
        vstd::arithmetic::div_mod::lemma_add_mod_noop(c, a + b, 256);
        vstd::arithmetic::div_mod::lemma_mod_bound(a, 256);
        vstd::arithmetic::div_mod::lemma_mod_bound(c, 256);
        vstd::arithmetic::div_mod::lemma_mod_bound(a + b, 256);
        vstd::arithmetic::div_mod::lemma_mod_bound(c + a + b, 256);
        vstd::arithmetic::div_mod::lemma_small_mod(((a + b) % 256) as nat, 256);
    }
}

/// The bytes that the checksum covers: class, id, little-endian length, payload.
pub open spec fn ubx_frame_body(class: u8, id: u8, payload: Seq<u8>) -> Seq<u8> {
    seq![class, id, (payload.len() % 256) as u8, (payload.len() / 256) as u8] + payload
}

/// The sync bytes and header of a frame: everything before the payload.
pub open spec fn ubx_frame_header(class: u8, id: u8, payload: Seq<u8>) -> Seq<u8> {
    seq![0xB5u8, 0x62u8] + ubx_frame_body(class, id, payload).take(4)
}

/// A frame with the given checksum bytes.
pub open spec fn ubx_frame_with(class: u8, id: u8, payload: Seq<u8>, ck_a: u8, ck_b: u8) -> Seq<
    u8,
> {
    seq![0xB5u8, 0x62u8] + ubx_frame_body(class, id, payload) + seq![ck_a, ck_b]
}

/// A complete frame with its correct checksum.
pub open spec fn ubx_frame(class: u8, id: u8, payload: Seq<u8>) -> Seq<u8> {
    let ck = ubx_checksum(ubx_frame_body(class, id, payload));
    ubx_frame_with(class, id, payload, ck.0, ck.1)
}

/// Feeding one more byte is one more step.
pub proof fn lemma_ubx_feed_push(p: UbxParserView, s: Seq<u8>, b: u8)
    ensures
        ubx_feed(p, s.push(b)) == ubx_parser_step(ubx_feed(p, s), b),
{
    assert(s.push(b).drop_last() =~= s);
}

/// The checksum of a run with one more byte.
pub proof fn lemma_ubx_checksum_push(s: Seq<u8>, b: u8)
    ensures
        ubx_checksum(s.push(b)) == ({
            let (a, c) = ubx_checksum(s);
            let a2 = add_wrap(a, b);
            (a2, add_wrap(c, a2))
        }),
{
    assert(s.push(b).drop_last() =~= s);
}

proof fn lemma_ubx_header_checksum(class: u8, id: u8, lo: u8, hi: u8)
    ensures
        ubx_checksum(seq![class, id, lo, hi]) == ({
            let a1 = class;
            let b1 = class;
            let a2 = add_wrap(a1, id);
            let b2 = add_wrap(b1, a2);
            let a3 = add_wrap(a2, lo);
            let b3 = add_wrap(b2, a3);
            let a4 = add_wrap(a3, hi);
            (a4, add_wrap(b3, a4))
        }),
{
    let c0 = Seq::<u8>::empty();
    let c1 = c0.push(class);
    let c2 = c1.push(id);
    let c3 = c2.push(lo);
    assert(seq![class, id, lo, hi] =~= c3.push(hi));
    lemma_ubx_checksum_push(c0, class);
    lemma_ubx_checksum_push(c1, id);
    lemma_ubx_checksum_push(c2, lo);
    lemma_ubx_checksum_push(c3, hi);
    assert(add_wrap(0, class) == class);
}

/// The assembler after the sync bytes and the header of a frame.
proof fn lemma_ubx_header(p: UbxParserView, class: u8, id: u8, payload: Seq<u8>)
    requires
        p.state == UbxState::WaitingForSync1,
        payload.len() <= ubx_max_payload(),
    ensures
        ({
            let body = ubx_frame_body(class, id, payload);
            let q = ubx_feed(p, seq![0xB5u8, 0x62u8] + body.take(4));
            &&& q.state == (if payload.len() == 0 {
                UbxState::ChecksumA
            } else {
                UbxState::Payload
            })
            &&& q.class == class
            &&& q.id == id
            &&& q.payload_length == payload.len()
            &&& (payload.len() > 0 ==> q.payload_index == 0)
            &&& q.buffer == p.buffer
            &&& (q.checksum_a, q.checksum_b) == ubx_checksum(body.take(4))
            &&& forall|j: int|
                0 <= j < 6 ==> (#[trigger] ubx_feed(
                    p,
                    ubx_frame_header(class, id, payload).take(j),
                )).state != UbxState::ChecksumB
        }),
{
    let n = payload.len();
    let body = ubx_frame_body(class, id, payload);
    let lo = (n % 256) as u8;
    let hi = (n / 256) as u8;
    assert(lo + 256 * (hi as nat) == n);
    let s0 = Seq::<u8>::empty();
    let s1 = s0.push(0xB5u8);
    let s2 = s1.push(0x62u8);
    let s3 = s2.push(class);
    let s4 = s3.push(id);
    let s5 = s4.push(lo);
    let s6 = s5.push(hi);
    assert(seq![0xB5u8, 0x62u8] + body.take(4) =~= s6);
    assert(body.take(4) =~= seq![class, id, lo, hi]);
    lemma_ubx_header_checksum(class, id, lo, hi);
    assert(ubx_feed(p, s0) == p);
    lemma_ubx_feed_push(p, s0, 0xB5u8);
    let q1 = ubx_feed(p, s1);
    assert(q1.state == UbxState::WaitingForSync2);
    lemma_ubx_feed_push(p, s1, 0x62u8);
    let q2 = ubx_feed(p, s2);
    assert(q2.state == UbxState::Class);
    lemma_ubx_feed_push(p, s2, class);
    let q3 = ubx_feed(p, s3);
    assert(q3.state == UbxState::Id && q3.checksum_a == class && q3.checksum_b == class);
    lemma_ubx_feed_push(p, s3, id);
    let q4 = ubx_feed(p, s4);
    assert(q4.state == UbxState::LengthLow && q4.id == id);
    lemma_ubx_feed_push(p, s4, lo);
    let q5 = ubx_feed(p, s5);
    assert(q5.state == UbxState::LengthHigh && q5.payload_length == lo);
    lemma_ubx_feed_push(p, s5, hi);
    let h = ubx_frame_header(class, id, payload);
    assert(h =~= s6);
    assert(h.take(0) =~= s0);
    assert(h.take(1) =~= s1);
    assert(h.take(2) =~= s2);
    assert(h.take(3) =~= s3);
    assert(h.take(4) =~= s4);
    assert(h.take(5) =~= s5);
}

/// The assembler after the sync bytes, header and the first `k` payload bytes of a frame.
#[verifier::spinoff_prover]
proof fn lemma_ubx_payload_prefix(
    p: UbxParserView,
    class: u8,
    id: u8,
    payload: Seq<u8>,
    k: int,
)
    requires
        p.state == UbxState::WaitingForSync1,
        p.buffer.len() == ubx_max_payload(),
        1 <= payload.len() <= ubx_max_payload(),
        0 <= k <= payload.len(),
    ensures
        ({
            let body = ubx_frame_body(class, id, payload);
            let q = ubx_feed(p, seq![0xB5u8, 0x62u8] + body.take(4 + k));
            &&& q.state == (if k == payload.len() {
                UbxState::ChecksumA
            } else {
                UbxState::Payload
            })
            &&& q.class == class
            &&& q.id == id
            &&& q.payload_length == payload.len()
            &&& q.payload_index == k
            &&& q.buffer.len() == ubx_max_payload()
            &&& q.buffer.take(k) == payload.take(k)
            &&& (q.checksum_a, q.checksum_b) == ubx_checksum(body.take(4 + k))
        }),
    decreases k,
{
    let body = ubx_frame_body(class, id, payload);
    if k == 0 {
        lemma_ubx_header(p, class, id, payload);
        let q = ubx_feed(p, seq![0xB5u8, 0x62u8] + body.take(4));
        assert(q.buffer.take(0) =~= payload.take(0));
    } else {
        lemma_ubx_payload_prefix(p, class, id, payload, k - 1);
        let prev = seq![0xB5u8, 0x62u8] + body.take(4 + k - 1);
        let b = payload[k - 1];
        assert(body[4 + k - 1] == b);
        assert(seq![0xB5u8, 0x62u8] + body.take(4 + k) =~= prev.push(b));
        lemma_ubx_feed_push(p, prev, b);
        assert(body.take(4 + k) =~= body.take(4 + k - 1).push(b));
        lemma_ubx_checksum_push(body.take(4 + k - 1), b);
        let q0 = ubx_feed(p, prev);
        let q1 = ubx_feed(p, prev.push(b));
        assert(q1.buffer =~= q0.buffer.update(k - 1, b));
        assert(q1.buffer.take(k) =~= payload.take(k)) by {
            assert forall|i: int| 0 <= i < k implies q1.buffer.take(k)[i] == payload.take(
                k,
            )[i] by {
                if i < k - 1 {
                    assert(q0.buffer.take(k - 1)[i] == payload.take(k - 1)[i]);
                }
            }
        }
    }
}

/// A frame of at most 256 payload bytes, fed to the assembler while it waits for a frame,
/// completes on its last byte exactly when its checksum bytes are the Fletcher checksum of
/// class, id, length and payload; the message then holds that class, id and payload. No
/// earlier byte completes, and afterwards the assembler waits for the next frame.
pub proof fn lemma_ubx_accepts_frame(
    p: UbxParserView,
    class: u8,
    id: u8,
    payload: Seq<u8>,
    ck_a: u8,
    ck_b: u8,
)
    requires
        p.state == UbxState::WaitingForSync1,
        p.buffer.len() == ubx_max_payload(),
        payload.len() <= ubx_max_payload(),
    ensures
        ({
            let frame = ubx_frame_with(class, id, payload, ck_a, ck_b);
            let last = ubx_feed(p, frame.drop_last());
            &&& ubx_step_completes(last, ck_b) <==> (ck_a, ck_b) == ubx_checksum(
                ubx_frame_body(class, id, payload),
            )
            &&& last.class == class
            &&& last.id == id
            &&& ubx_message_payload(last) == payload
            &&& ubx_feed(p, frame).state == UbxState::WaitingForSync1
            &&& ubx_feed(p, frame).buffer.len() == ubx_max_payload()
            &&& forall|k: int|
                0 <= k < frame.len() - 1 ==> !ubx_step_completes(
                    #[trigger] ubx_feed(p, frame.take(k)),
                    frame[k],
                )
        }),
{
    let n = payload.len() as int;
    let body = ubx_frame_body(class, id, payload);
    let sync = seq![0xB5u8, 0x62u8];
    let hb = sync + body;
    let frame = ubx_frame_with(class, id, payload, ck_a, ck_b);
    assert(body.take(4 + n) =~= body);
    lemma_ubx_header(p, class, id, payload);
    if n > 0 {
        lemma_ubx_payload_prefix(p, class, id, payload, n);
    } else {
        assert(payload =~= Seq::<u8>::empty());
    }
    let q = ubx_feed(p, hb);
    assert(q.state == UbxState::ChecksumA);
    assert(q.buffer.take(n) =~= payload);
    assert((q.checksum_a, q.checksum_b) == ubx_checksum(body));
    assert(frame =~= hb.push(ck_a).push(ck_b));
    assert(frame.drop_last() =~= hb.push(ck_a));
    lemma_ubx_feed_push(p, hb, ck_a);
    lemma_ubx_feed_push(p, hb.push(ck_a), ck_b);
    assert forall|k: int| 0 <= k < frame.len() - 1 implies !ubx_step_completes(
        #[trigger] ubx_feed(p, frame.take(k)),
        frame[k],
    ) by {
        if k < 6 {
            assert(frame.take(k) =~= ubx_frame_header(class, id, payload).take(k));
        } else if k < 6 + n {
            lemma_ubx_payload_prefix(p, class, id, payload, k - 6);
            assert(frame.take(k) =~= sync + body.take(4 + (k - 6)));
        } else {
            assert(frame.take(k) =~= hb);
        }
    }
}

/// A frame header that announces more than 256 payload bytes is dropped: none of its bytes
/// completes a message and the assembler is back to waiting for a frame after it.
pub proof fn lemma_ubx_rejects_oversized(p: UbxParserView, class: u8, id: u8, lo: u8, hi: u8)
    requires
        p.state == UbxState::WaitingForSync1,
        lo + 256 * hi > ubx_max_payload(),
    ensures
        ({
            let header = seq![0xB5u8, 0x62u8, class, id, lo, hi];
            &&& ubx_feed(p, header).state == UbxState::WaitingForSync1
            &&& forall|k: int|
                0 <= k < header.len() ==> !ubx_step_completes(
                    #[trigger] ubx_feed(p, header.take(k)),
                    header[k],
                )
        }),
{
    let header = seq![0xB5u8, 0x62u8, class, id, lo, hi];
    let s0 = Seq::<u8>::empty();
    let s1 = s0.push(0xB5u8);
    let s2 = s1.push(0x62u8);
    let s3 = s2.push(class);
    let s4 = s3.push(id);
    let s5 = s4.push(lo);
    let s6 = s5.push(hi);
    assert(header =~= s6);
    assert(ubx_feed(p, s0) == p);
    lemma_ubx_feed_push(p, s0, 0xB5u8);
    lemma_ubx_feed_push(p, s1, 0x62u8);
    lemma_ubx_feed_push(p, s2, class);
    lemma_ubx_feed_push(p, s3, id);
    lemma_ubx_feed_push(p, s4, lo);
    lemma_ubx_feed_push(p, s5, hi);
    assert(ubx_feed(p, s5).payload_length == lo);
    assert forall|k: int| 0 <= k < header.len() implies !ubx_step_completes(
        #[trigger] ubx_feed(p, header.take(k)),
        header[k],
    ) by {
        if k == 0 {
            assert(header.take(0) =~= s0);
        } else if k == 1 {
            assert(header.take(1) =~= s1);
        } else if k == 2 {
            assert(header.take(2) =~= s2);
        } else if k == 3 {
            assert(header.take(3) =~= s3);
        } else if k == 4 {
            assert(header.take(4) =~= s4);
        } else {
            assert(header.take(5) =~= s5);
        }
    }
}

/// A frame built with its correct checksum (as the `make_frame` methods build them) is
/// received: its last byte completes it, and the message carries its class, id and payload.
pub proof fn lemma_ubx_accepts_built_frame(p: UbxParserView, class: u8, id: u8, payload: Seq<u8>)
    requires
        p.state == UbxState::WaitingForSync1,
        p.buffer.len() == ubx_max_payload(),
        payload.len() <= ubx_max_payload(),
    ensures
        ({
            let frame = ubx_frame(class, id, payload);
            let last = ubx_feed(p, frame.drop_last());
            &&& ubx_step_completes(last, frame.last())
            &&& class_id_of(last.class) == class_id_of(class)
            &&& last.id == id
            &&& ubx_message_payload(last) == payload
        }),
{
    let ck = ubx_checksum(ubx_frame_body(class, id, payload));
    lemma_ubx_accepts_frame(p, class, id, payload, ck.0, ck.1);
}

/// The bytes that the running checksum covers so far in the frame being assembled.
pub open spec fn ubx_summed(p: UbxParserView) -> Seq<u8> {
    let len = p.payload_length;
    match p.state {
        UbxState::Id => seq![p.class],
        UbxState::LengthLow => seq![p.class, p.id],
        UbxState::LengthHigh => seq![p.class, p.id, len as u8],
        UbxState::Payload => seq![p.class, p.id, (len % 256) as u8, (len / 256) as u8]
            + p.buffer.take(p.payload_index as int),
        UbxState::ChecksumA => ubx_frame_body(p.class, p.id, p.buffer.take(len as int)),
        UbxState::ChecksumB => ubx_frame_body(p.class, p.id, p.buffer.take(len as int)),
        _ => Seq::empty(),
    }
}

/// The bytes of the frame being assembled that the assembler has taken so far.
pub open spec fn ubx_pending(p: UbxParserView) -> Seq<u8> {
    match p.state {
        UbxState::WaitingForSync1 => Seq::empty(),
        UbxState::WaitingForSync2 => seq![0xB5u8],
        UbxState::Class => seq![0xB5u8, 0x62u8],
        UbxState::ChecksumB => seq![0xB5u8, 0x62u8] + ubx_summed(p) + seq![p.received_checksum_a],
        _ => seq![0xB5u8, 0x62u8] + ubx_summed(p),
    }
}

/// What holds of the assembler after the bytes `s`: they end with the part of a frame that it
/// has taken, its running checksum is the checksum of what that part covers, and its length
/// and index are within the payload buffer.
pub open spec fn ubx_assembling(p: UbxParserView, s: Seq<u8>) -> bool {
    let len = p.payload_length;
    &&& p.buffer.len() == ubx_max_payload()
    &&& ubx_pending(p).is_suffix_of(s)
    &&& (p.state != UbxState::WaitingForSync1 && p.state != UbxState::WaitingForSync2
        && p.state != UbxState::Class) ==> (p.checksum_a, p.checksum_b) == ubx_checksum(
        ubx_summed(p),
    )
    &&& p.state == UbxState::LengthHigh ==> len < 256
    &&& p.state == UbxState::Payload ==> p.payload_index < len <= ubx_max_payload()
    &&& (p.state == UbxState::ChecksumA || p.state == UbxState::ChecksumB) ==> len
        <= ubx_max_payload()
}

proof fn lemma_suffix_push(t: Seq<u8>, s: Seq<u8>, b: u8)
    requires
        t.is_suffix_of(s),
    ensures
        t.push(b).is_suffix_of(s.push(b)),
        seq![b].is_suffix_of(s.push(b)),
        Seq::<u8>::empty().is_suffix_of(s.push(b)),
{
    assert(t.push(b) =~= s.push(b).subrange(s.push(b).len() - t.push(b).len(), s.push(b).len() as int));
    assert(seq![b] =~= s.push(b).subrange(s.len() as int, s.push(b).len() as int));
}

/// Each byte keeps `ubx_assembling`.
#[verifier::spinoff_prover]
proof fn lemma_ubx_assembling_step(p: UbxParserView, s: Seq<u8>, b: u8)
    requires
        ubx_assembling(p, s),
    ensures
        ubx_assembling(ubx_parser_step(p, b), s.push(b)),
{
    let q = ubx_parser_step(p, b);
    let sum = ubx_summed(p);
    lemma_suffix_push(ubx_pending(p), s, b);
    lemma_ubx_checksum_push(sum, b);
    let len = p.payload_length;
    match p.state {
        UbxState::WaitingForSync1 => {},
        UbxState::WaitingForSync2 => {
            assert(ubx_pending(q) =~= ubx_pending(p).push(b) || ubx_pending(q) =~= seq![b]
                || ubx_pending(q) =~= Seq::<u8>::empty());
        },
        UbxState::Class => {
            assert(ubx_pending(q) =~= ubx_pending(p).push(b));
            lemma_ubx_checksum_push(Seq::<u8>::empty(), b);
            assert(seq![b] =~= Seq::<u8>::empty().push(b));
            assert(add_wrap(0, b) == b);
        },
        UbxState::Id => {
            assert(ubx_summed(q) =~= sum.push(b));
            assert(ubx_pending(q) =~= ubx_pending(p).push(b));
        },
        UbxState::LengthLow => {
            assert(ubx_summed(q) =~= sum.push(b));
            assert(ubx_pending(q) =~= ubx_pending(p).push(b));
        },
        UbxState::LengthHigh => {
            let n: nat = len + 256 * (b as nat);
            assert(n % 256 == len && n / 256 == b);
            if n <= ubx_max_payload() {
                assert(ubx_summed(q) =~= sum.push(b));
                assert(ubx_pending(q) =~= ubx_pending(p).push(b));
            }
        },
        UbxState::Payload => {
            let i = p.payload_index as int;
            let nb = p.buffer.update(i, b);
            assert(nb.take(i + 1) =~= p.buffer.take(i).push(b));
            assert(ubx_summed(q) =~= sum.push(b));
            assert(ubx_pending(q) =~= ubx_pending(p).push(b));
        },
        UbxState::ChecksumA => {
            assert(ubx_summed(q) =~= sum);
            assert(ubx_pending(q) =~= ubx_pending(p).push(b));
        },
        UbxState::ChecksumB => {},
    }
}

/// `ubx_assembling` holds of the assembler after any byte stream fed from its initial state.
pub proof fn lemma_ubx_feed_assembling(s: Seq<u8>)
    ensures
        ubx_assembling(ubx_feed(UbxParser::initial_view(), s), s),
    decreases s.len(),
{
    if s.len() == 0 {
        assert(Seq::<u8>::empty().is_suffix_of(s));
    } else {
        lemma_ubx_feed_assembling(s.drop_last());
        lemma_ubx_assembling_step(ubx_feed(UbxParser::initial_view(), s.drop_last()), s.drop_last(), s.last());
        assert(s.drop_last().push(s.last()) =~= s);
    }
}

/// Every message that the assembler hands out, after any byte stream fed from its initial
/// state, is a well-formed frame at the end of the bytes received: the sync bytes, its class
/// and id, its length (at most 256), its payload and the matching Fletcher checksum, with the
/// completing byte last.
pub proof fn lemma_ubx_delivers_only_frames(s: Seq<u8>, byte: u8)
    ensures
        ({
            let p = ubx_feed(UbxParser::initial_view(), s);
            ubx_step_completes(p, byte) ==> {
                &&& ubx_message_payload(p).len() <= ubx_max_payload()
                &&& ubx_frame(p.class, p.id, ubx_message_payload(p)).is_suffix_of(s.push(byte))
            }
        }),
{
    let p = ubx_feed(UbxParser::initial_view(), s);
    lemma_ubx_feed_assembling(s);
    if ubx_step_completes(p, byte) {
        lemma_suffix_push(ubx_pending(p), s, byte);
        let payload = ubx_message_payload(p);
        assert(ubx_pending(p).push(byte) =~= ubx_frame(p.class, p.id, payload));
    }
}

/// The unsigned value of the two bytes from `at`, least significant first.
pub open spec fn le_value2(s: Seq<u8>, at: int) -> nat {
    (s[at] + 256 * s[at + 1]) as nat
}

/// The unsigned value of the four bytes from `at`, least significant first.
pub open spec fn le_value4(s: Seq<u8>, at: int) -> nat {
    (s[at] + 256 * s[at + 1] + 65536 * s[at + 2] + 16777216 * s[at + 3]) as nat
}

/// The unsigned readers give the numeric value of the bytes, which always fits.
pub proof fn lemma_le_unsigned(s: Seq<u8>, at: int)
    requires
        0 <= at,
        at + 2 <= s.len(),
    ensures
        le_value2(s, at) < 0x1_0000,
        le_u16(s, at) == le_value2(s, at),
        at + 4 <= s.len() ==> le_value4(s, at) < 0x1_0000_0000 && le_u32(s, at) == le_value4(s, at),
{
}

/// Two bytes from `at`, little-endian, unsigned.
pub open spec fn le_u16(s: Seq<u8>, at: int) -> u16 {
    le_value2(s, at) as u16
}

/// Four bytes from `at`, little-endian, unsigned.
pub open spec fn le_u32(s: Seq<u8>, at: int) -> u32 {
    le_value4(s, at) as u32
}

/// Two bytes from `at`, little-endian, two's complement.
pub open spec fn le_i16(s: Seq<u8>, at: int) -> i16 {
    let v = le_value2(s, at);
    if v < 0x8000 {
        v as i16
    } else {
        (v - 0x1_0000) as i16
    }
}

/// Four bytes from `at`, little-endian, two's complement.
pub open spec fn le_i32(s: Seq<u8>, at: int) -> i32 {
    let v = le_value4(s, at);
    if v < 0x8000_0000 {
        v as i32
    } else {
        (v - 0x1_0000_0000) as i32
    }
}

/// Little-endian readers for fixed-width fields at the start of a byte slice.
pub struct Parse;

impl Parse {
    fn read_le_u32(bytes: &[u8]) -> (r: u32)
        requires
            bytes@.len() >= 4,
        ensures
            r == le_value4(bytes@, 0),
    {
        (bytes[0] as u32) + (bytes[1] as u32) * 256 + (bytes[2] as u32) * 65536 + (bytes[3] as u32)
            * 16777216
    }

    fn read_le_u16(bytes: &[u8]) -> (r: u16)
        requires
            bytes@.len() >= 2,
        ensures
            r == le_value2(bytes@, 0),
    {
        (bytes[0] as u16) + (bytes[1] as u16) * 256
    }

    /// The first four bytes as a little-endian `u32`, if there are four.
    pub fn try_read_u32(bytes: &[u8]) -> (r: Option<u32>)
        ensures
            r == (if bytes@.len() >= 4 {
                Some(le_u32(bytes@, 0))
            } else {
                None
            }),
    {
        if bytes.len() < 4 {
            return None;
        }
        Some(Self::read_le_u32(bytes))
    }

    /// The first four bytes as a little-endian `i32`, if there are four.
    pub fn try_read_i32(bytes: &[u8]) -> (r: Option<i32>)
        ensures
            r == (if bytes@.len() >= 4 {
                Some(le_i32(bytes@, 0))
            } else {
                None
            }),
    {
        if bytes.len() < 4 {
            return None;
        }
        let v = Self::read_le_u32(bytes);
        if v < 0x8000_0000 {
            Some(v as i32)
        } else {
            Some(((v - 0x8000_0000) as i32) + i32::MIN)
        }
    }

    /// The first two bytes as a little-endian `u16`, if there are two.
    pub fn try_read_u16(bytes: &[u8]) -> (r: Option<u16>)
        ensures
            r == (if bytes@.len() >= 2 {
                Some(le_u16(bytes@, 0))
            } else {
                None
            }),
    {
        if bytes.len() < 2 {
            return None;
        }
        Some(Self::read_le_u16(bytes))
    }

    /// The first two bytes as a little-endian `i16`, if there are two.
    pub fn try_read_i16(bytes: &[u8]) -> (r: Option<i16>)
        ensures
            r == (if bytes@.len() >= 2 {
                Some(le_i16(bytes@, 0))
            } else {
                None
            }),
    {
        if bytes.len() < 2 {
            return None;
        }
        let v = Self::read_le_u16(bytes);
        if v < 0x8000 {
            Some(v as i16)
        } else {
            Some(((v - 0x8000) as i16) + i16::MIN)
        }
    }
}

impl Default for UbxParser {
    fn default() -> (r: Self)
        ensures
            r@ == Self::initial_view(),
    {
        Self::new()
    }
}

/// Every listed class is named again by its class byte, and no two classes share a byte.
pub proof fn lemma_class_id_code_roundtrip(x: UbxClassId, y: UbxClassId)
    ensures
        class_id_of(x.code()) == x,
        x.code() == y.code() ==> x == y,
{
}

/// The layout of a UBX frame: the sync bytes `B5 62`, class, id, the payload length as a
/// little-endian 16-bit number, the payload, and the two checksum bytes, which are the byte sum
/// and the sum of running sums (mod 256) of everything from the class to the end of the payload.
pub proof fn lemma_ubx_frame_layout(class: u8, id: u8, payload: Seq<u8>)
    requires
        payload.len() < 0x1_0000,
    ensures
        ({
            let frame = ubx_frame(class, id, payload);
            let n = payload.len() as int;
            let covered = frame.subrange(2, n + 6);
            &&& frame.len() == n + 8
            &&& frame[0] == 0xB5 && frame[1] == 0x62
            &&& frame[2] == class && frame[3] == id
            &&& frame[4] + 256 * frame[5] == n
            &&& frame.subrange(6, n + 6) == payload
            &&& frame[n + 6] == byte_sum(covered) % 256
            &&& frame[n + 7] == running_sum_total(covered) % 256
        }),
{
    let frame = ubx_frame(class, id, payload);
    let n = payload.len() as int;
    let body = ubx_frame_body(class, id, payload);
    assert(frame.subrange(2, n + 6) =~= body);
    assert(frame.subrange(6, n + 6) =~= payload);
    lemma_ubx_checksum_sums(body);
}

} // verus!
