use vstd::prelude::*;
use crate::gps::nmea_gga::{lemma_gga_fields, spec_parse_gga, NmeaGga};

verus! {

// An NMEA 0183 sentence always follows a strict pattern:
// it starts with `$`, carries printable payload bytes, then `*` and a
// two-hex-digit checksum (the XOR of the payload bytes), and ends with CR LF.

/// What one received byte means to the sentence framing.
#[derive(Clone, Copy, Debug, PartialEq, Eq, Structural)]
pub enum NmeaEvent {
    Nothing,
    Start,
    PayloadByte(u8),
    Complete,
}

/// Position within a sentence: `$`, payload, `*`, checksum digits, CR/LF.
#[derive(Clone, Copy, Debug, PartialEq, Eq, Structural)]
pub enum NmeaState {
    WaitingForStart,
    InPayload { calculated_checksum: u8 },
    WaitingForChecksum1 { calculated_checksum: u8 },
    WaitingForChecksum2 { calculated_checksum: u8, received_checksum_high: u8 },
    WaitingForCr,
    WaitingForLf,
}

/// The value of an upper- or lower-case hexadecimal digit.
pub open spec fn hex_digit_value(b: u8) -> Option<u8> {
    if 48 <= b <= 57 {
        Some((b - 48) as u8)
    } else if 65 <= b <= 70 {
        Some((b - 55) as u8)
    } else if 97 <= b <= 102 {
        Some((b - 87) as u8)
    } else {
        None
    }
}

/// Printable ASCII other than space (`is_ascii_graphic`).
pub open spec fn is_graphic(b: u8) -> bool {
    0x21 <= b <= 0x7e
}

/// The hexadecimal digits: `0`-`9` stand for 0 to 9, `A`-`F` and `a`-`f` for 10 to 15, and
/// every value below 16 is read from its upper- and lower-case digit; no other byte is a digit.
pub proof fn lemma_hex_digits(b: u8, v: u8)
    ensures
        hex_digit_value(b) matches Some(d) ==> d < 16 && (b == 48 + d || (d >= 10 && (b == 55 + d
            || b == 87 + d))),
        v < 10 ==> hex_digit_value((48 + v) as u8) == Some(v),
        10 <= v < 16 ==> hex_digit_value((55 + v) as u8) == Some(v) && hex_digit_value(
            (87 + v) as u8,
        ) == Some(v),
{
}

/// The framing automaton: the next state and the event for one received byte.
pub open spec fn nmea_state_step(s: NmeaState, data: u8) -> (NmeaState, NmeaEvent) {
    if data == 36 {
        (NmeaState::InPayload { calculated_checksum: 0 }, NmeaEvent::Start)
    } else {
        match s {
            NmeaState::WaitingForStart => (NmeaState::WaitingForStart, NmeaEvent::Nothing),
            NmeaState::InPayload { calculated_checksum } => {
                if data == 42 {
                    (NmeaState::WaitingForChecksum1 { calculated_checksum }, NmeaEvent::Nothing)
                } else if is_graphic(data) || data == 32 {
                    (
                        NmeaState::InPayload { calculated_checksum: calculated_checksum ^ data },
                        NmeaEvent::PayloadByte(data),
                    )
                } else {
                    (NmeaState::WaitingForStart, NmeaEvent::Nothing)
                }
            },
            NmeaState::WaitingForChecksum1 { calculated_checksum } => {
                match hex_digit_value(data) {
                    Some(v) => (
                        NmeaState::WaitingForChecksum2 { calculated_checksum, received_checksum_high: v },
                        NmeaEvent::Nothing,
                    ),
                    None => (NmeaState::WaitingForStart, NmeaEvent::Nothing),
                }
            },
            NmeaState::WaitingForChecksum2 { calculated_checksum, received_checksum_high } => {
                match hex_digit_value(data) {
                    Some(v) => {
                        if calculated_checksum == ((received_checksum_high << 4u8) | v) {
                            (NmeaState::WaitingForCr, NmeaEvent::Nothing)
                        } else {
                            (NmeaState::WaitingForStart, NmeaEvent::Nothing)
                        }
                    },
                    None => (NmeaState::WaitingForStart, NmeaEvent::Nothing),
                }
            },
            NmeaState::WaitingForCr => {
                if data == 13 {
                    (NmeaState::WaitingForLf, NmeaEvent::Nothing)
                } else {
                    (NmeaState::WaitingForStart, NmeaEvent::Nothing)
                }
            },
            NmeaState::WaitingForLf => {
                if data == 10 {
                    (NmeaState::WaitingForStart, NmeaEvent::Complete)
                } else {
                    (NmeaState::WaitingForStart, NmeaEvent::Nothing)
                }
            },
        }
    }
}

impl NmeaState {
    /// Advances the framing by one byte; `$` always starts a new sentence, whatever the state.
    pub fn on_data_received(&mut self, data: u8) -> (r: NmeaEvent)
        ensures
            (*final(self), r) == nmea_state_step(*old(self), data),
        no_unwind
    {
        if data == 36 {
            *self = NmeaState::InPayload { calculated_checksum: 0 };
            return NmeaEvent::Start;
        }
        match *self {
            NmeaState::WaitingForStart => NmeaEvent::Nothing,
            NmeaState::InPayload { calculated_checksum } => {
                if data == 42 {
                    *self = NmeaState::WaitingForChecksum1 { calculated_checksum };
                    NmeaEvent::Nothing
                } else if (data >= 0x21 && data <= 0x7e) || data == 32 {
                    *self = NmeaState::InPayload { calculated_checksum: calculated_checksum ^ data };
                    NmeaEvent::PayloadByte(data)
                } else {
                    *self = NmeaState::WaitingForStart;
                    NmeaEvent::Nothing
                }
            },
            NmeaState::WaitingForChecksum1 { calculated_checksum } => {
                match Self::parse_hex_digit(data) {
                    Some(val) => {
                        *self = NmeaState::WaitingForChecksum2 {
                            calculated_checksum,
                            received_checksum_high: val,
                        };
                    },
                    None => {
                        *self = NmeaState::WaitingForStart;
                    },
                }
                NmeaEvent::Nothing
            },
            NmeaState::WaitingForChecksum2 { calculated_checksum, received_checksum_high } => {
                match Self::parse_hex_digit(data) {
                    Some(val) => {
                        let received_checksum = (received_checksum_high << 4u8) | val;
                        if calculated_checksum == received_checksum {
                            *self = NmeaState::WaitingForCr;
                        } else {
                            *self = NmeaState::WaitingForStart;
                        }
                    },
                    None => {
                        *self = NmeaState::WaitingForStart;
                    },
                }
                NmeaEvent::Nothing
            },
            NmeaState::WaitingForCr => {
                if data == 13 {
                    *self = NmeaState::WaitingForLf;
                } else {
                    *self = NmeaState::WaitingForStart;
                }
                NmeaEvent::Nothing
            },
            NmeaState::WaitingForLf => {
                *self = NmeaState::WaitingForStart;
                if data == 10 {
                    NmeaEvent::Complete
                } else {
                    NmeaEvent::Nothing
                }
            },
        }
    }

    pub fn parse_hex_digit(byte: u8) -> (r: Option<u8>)
        ensures
            r == hex_digit_value(byte),
        no_unwind
    {
        if byte >= 48 && byte <= 57 {
            Some(byte - 48)
        } else if byte >= 65 && byte <= 70 {
            Some(byte - 55)
        } else if byte >= 97 && byte <= 102 {
            Some(byte - 87)
        } else {
            None
        }
    }
}

/// What the sentence assembler holds: the framing state, the payload bytes received so far
/// in the current sentence, and whether a checked sentence has just been completed.
#[verifier::ext_equal]
pub struct NmeaParserView {
    pub state: NmeaState,
    pub payload: Seq<u8>,
    pub complete: bool,
}

/// The largest payload that a sentence may carry (`$`, `*`, checksum and CR LF excluded).
pub open spec fn nmea_buffer_size() -> nat {
    80
}

/// One received byte applied to the assembler.
pub open spec fn nmea_parser_step(p: NmeaParserView, data: u8) -> NmeaParserView {
    let (state, event) = nmea_state_step(p.state, data);
    match event {
        NmeaEvent::Nothing => NmeaParserView { state, payload: p.payload, complete: false },
        NmeaEvent::Start => NmeaParserView { state, payload: Seq::empty(), complete: false },
        NmeaEvent::PayloadByte(b) => {
            if p.payload.len() >= nmea_buffer_size() {
                NmeaParserView {
                    state: NmeaState::WaitingForStart,
                    payload: Seq::empty(),
                    complete: false,
                }
            } else {
                NmeaParserView { state, payload: p.payload.push(b), complete: false }
            }
        },
        NmeaEvent::Complete => NmeaParserView { state, payload: p.payload, complete: true },
    }
}

/// A run of received bytes applied in order.
pub open spec fn nmea_feed(p: NmeaParserView, bytes: Seq<u8>) -> NmeaParserView
    decreases bytes.len(),
{
    if bytes.len() == 0 {
        p
    } else {
        nmea_parser_step(nmea_feed(p, bytes.drop_last()), bytes.last())
    }
}

/// The NMEA checksum: the XOR of all payload bytes.
pub open spec fn nmea_checksum(payload: Seq<u8>) -> u8
    decreases payload.len(),
{
    if payload.len() == 0 {
        0
    } else {
        nmea_checksum(payload.drop_last()) ^ payload.last()
    }
}

/// A byte that may stand in a payload: printable, and neither `$` nor `*`.
pub open spec fn is_payload_byte(b: u8) -> bool {
    (is_graphic(b) || b == 32) && b != 36 && b != 42
}

/// `$`, the payload, `*`, two checksum digits, CR, LF.
pub open spec fn nmea_sentence(payload: Seq<u8>, hi: u8, lo: u8) -> Seq<u8> {
    seq![36u8] + payload + seq![42u8, hi, lo, 13u8, 10u8]
}

/// Assembles NMEA sentences from a byte stream: keeps the payload of the current
/// sentence, discards it on overflow, and reports when a sentence with a correct checksum ends.
#[derive(Clone, Copy, Debug, PartialEq, Eq)]
pub struct NmeaParser {
    state: NmeaState,
    payload_buf: [u8; 80],
    payload_index: usize,
    complete: bool,
}

impl View for NmeaParser {
    type V = NmeaParserView;

    closed spec fn view(&self) -> NmeaParserView {
        NmeaParserView {
            state: self.state,
            payload: self.payload_buf@.take(self.payload_index as int),
            complete: self.complete,
        }
    }
}

impl NmeaParser {
    /// The largest payload that a sentence may carry.
    pub const BUFFER_SIZE: usize = 80;

    #[verifier::type_invariant]
    spec fn wf(self) -> bool {
        self.payload_index <= 80
    }

    /// The assembler before any byte: waiting for `$`, with nothing received.
    pub open spec fn initial_view() -> NmeaParserView {
        NmeaParserView { state: NmeaState::WaitingForStart, payload: Seq::empty(), complete: false }
    }

    pub fn new() -> (r: Self)
        ensures
            r@ == Self::initial_view(),
    {
        let r = Self {
            state: NmeaState::WaitingForStart,
            payload_buf: [0u8; 80],
            payload_index: 0,
            complete: false,
        };
        assert(r@.payload =~= Seq::<u8>::empty());
        r
    }

    /// Feeds one byte; returns whether it completed a sentence whose checksum matched.
    /// A new byte means that a previously completed sentence has been consumed.
    pub fn on_data_received(&mut self, data: u8) -> (r: bool)
        ensures
            final(self)@ == nmea_parser_step(old(self)@, data),
            r == final(self)@.complete,
    {
        proof {
            use_type_invariant(&*self);
        }
        let ghost before = self@;
        self.complete = false;
        let event = self.state.on_data_received(data);
        match event {
            NmeaEvent::Nothing => {},
            NmeaEvent::Start => {
                self.payload_index = 0;
            },
            NmeaEvent::PayloadByte(byte) => {
                if self.payload_index >= 80 {
                    self.state = NmeaState::WaitingForStart;
                    self.payload_index = 0;
                } else {
                    let i = self.payload_index;
                    self.payload_buf[i] = byte;
                    self.payload_index = i + 1;
                    assert(self.payload_buf@.take(i + 1) =~= before.payload.push(byte));
                }
            },
            NmeaEvent::Complete => {
                self.complete = true;
            },
        }
        assert(self@ =~= nmea_parser_step(before, data));
        self.complete
    }

    /// The payload of the sentence that the last byte completed, if it completed one.
    pub fn payload(&self) -> (r: Option<&[u8]>)
        ensures
            r.is_some() == self@.complete,
            r matches Some(s) ==> s@ == self@.payload,
    {
        proof {
            use_type_invariant(self);
        }
        if self.complete {
            Some(&self.payload_buf[0..self.payload_index])
        } else {
            None
        }
    }
}

/// Feeding one more byte is one more step.
pub proof fn lemma_nmea_feed_push(p: NmeaParserView, s: Seq<u8>, b: u8)
    ensures
        nmea_feed(p, s.push(b)) == nmea_parser_step(nmea_feed(p, s), b),
{
    assert(s.push(b).drop_last() =~= s);
}

proof fn lemma_nmea_payload_prefix(p: NmeaParserView, payload: Seq<u8>, k: int)
    requires
        0 <= k <= payload.len() <= nmea_buffer_size(),
        forall|i: int| 0 <= i < payload.len() ==> is_payload_byte(#[trigger] payload[i]),
    ensures
        nmea_feed(p, seq![36u8] + payload.take(k)) == (NmeaParserView {
            state: NmeaState::InPayload { calculated_checksum: nmea_checksum(payload.take(k)) },
            payload: payload.take(k),
            complete: false,
        }),
    decreases k,
{
    if k == 0 {
        assert(seq![36u8] + payload.take(0) =~= Seq::<u8>::empty().push(36u8));
        lemma_nmea_feed_push(p, Seq::empty(), 36u8);
        assert(nmea_feed(p, Seq::<u8>::empty()) == p);
        assert(payload.take(0) =~= Seq::<u8>::empty());
        assert(nmea_checksum(Seq::<u8>::empty()) == 0);
    } else {
        lemma_nmea_payload_prefix(p, payload, k - 1);
        let prev = seq![36u8] + payload.take(k - 1);
        let b = payload[k - 1];
        assert(seq![36u8] + payload.take(k) =~= prev.push(b));
        lemma_nmea_feed_push(p, prev, b);
        assert(payload.take(k).drop_last() =~= payload.take(k - 1));
        assert(payload.take(k - 1).push(b) =~= payload.take(k));
        assert(is_payload_byte(b));
    }
}

proof fn lemma_checksum_digits(ck: u8)
    ensures
        ((ck / 16u8) << 4u8) | (ck % 16u8) == ck,
{
    assert(((ck / 16u8) << 4u8) | (ck % 16u8) == ck) by (bit_vector);
}

/// A well-formed sentence (printable payload of at most 80 bytes without `$` or `*`,
/// and the checksum digits of its XOR) completes on its final LF whatever state the
/// assembler was in, and the assembler then holds exactly its payload; no earlier
/// byte of the sentence reports completion.
pub proof fn lemma_nmea_accepts_sentence(p: NmeaParserView, payload: Seq<u8>, hi: u8, lo: u8)
    requires
        payload.len() <= nmea_buffer_size(),
        forall|i: int| 0 <= i < payload.len() ==> is_payload_byte(#[trigger] payload[i]),
        hex_digit_value(hi) == Some(nmea_checksum(payload) / 16u8),
        hex_digit_value(lo) == Some(nmea_checksum(payload) % 16u8),
    ensures
        nmea_feed(p, nmea_sentence(payload, hi, lo)) == (NmeaParserView {
            state: NmeaState::WaitingForStart,
            payload,
            complete: true,
        }),
        forall|k: int|
            1 <= k < nmea_sentence(payload, hi, lo).len() ==> !(#[trigger] nmea_feed(
                p,
                nmea_sentence(payload, hi, lo).take(k),
            )).complete,
{
    let n = payload.len() as int;
    let ck = nmea_checksum(payload);
    lemma_nmea_payload_prefix(p, payload, n);
    assert(payload.take(n) =~= payload);
    let t0 = seq![36u8] + payload;
    let t1 = t0.push(42u8);
    let t2 = t1.push(hi);
    let t3 = t2.push(lo);
    let t4 = t3.push(13u8);
    let t5 = t4.push(10u8);
    lemma_nmea_feed_push(p, t0, 42u8);
    lemma_nmea_feed_push(p, t1, hi);
    lemma_nmea_feed_push(p, t2, lo);
    lemma_nmea_feed_push(p, t3, 13u8);
    lemma_nmea_feed_push(p, t4, 10u8);
    lemma_checksum_digits(ck);
    let sentence = nmea_sentence(payload, hi, lo);
    assert(sentence =~= t5);
    assert(nmea_feed(p, t0).state == NmeaState::InPayload { calculated_checksum: ck });
    assert(nmea_feed(p, t1).state == NmeaState::WaitingForChecksum1 { calculated_checksum: ck });
    assert(nmea_feed(p, t2).state == NmeaState::WaitingForChecksum2 {
        calculated_checksum: ck,
        received_checksum_high: ck / 16u8,
    });
    assert(nmea_feed(p, t3).state == NmeaState::WaitingForCr);
    assert(nmea_feed(p, t4).state == NmeaState::WaitingForLf);
    assert(nmea_feed(p, t5).payload =~= payload);
    assert forall|k: int| 1 <= k < sentence.len() implies !(#[trigger] nmea_feed(
        p,
        sentence.take(k),
    )).complete by {
        if k <= n + 1 {
            lemma_nmea_payload_prefix(p, payload, k - 1);
            assert(sentence.take(k) =~= seq![36u8] + payload.take(k - 1));
        } else if k == n + 2 {
            assert(sentence.take(k) =~= t1);
        } else if k == n + 3 {
            assert(sentence.take(k) =~= t2);
        } else if k == n + 4 {
            assert(sentence.take(k) =~= t3);
        } else {
            assert(sentence.take(k) =~= t4);
        }
    }
}

proof fn lemma_checksum_digits_decide(ck: u8, h: u8, v: u8)
    requires
        h < 16,
        v < 16,
    ensures
        (ck == ((h << 4u8) | v)) <==> (h == ck / 16u8 && v == ck % 16u8),
{
    assert(h < 16 && v < 16 ==> ((ck == ((h << 4u8) | v)) <==> (h == ck / 16u8 && v == ck % 16u8)))
        by (bit_vector);
}

proof fn lemma_hex_digit_small(b: u8)
    ensures
        hex_digit_value(b) matches Some(v) ==> v < 16,
{
}

/// A sentence with a printable payload of at most 80 bytes completes on its final LF exactly
/// when its two checksum characters are the hexadecimal digits (either case) of the XOR of
/// its payload bytes: a sentence with a wrong or malformed checksum is never reported.
pub proof fn lemma_nmea_checksum_decides(p: NmeaParserView, payload: Seq<u8>, hi: u8, lo: u8)
    requires
        payload.len() <= nmea_buffer_size(),
        forall|i: int| 0 <= i < payload.len() ==> is_payload_byte(#[trigger] payload[i]),
    ensures
        nmea_feed(p, nmea_sentence(payload, hi, lo)).complete <==> (hex_digit_value(hi) == Some(
            nmea_checksum(payload) / 16u8,
        ) && hex_digit_value(lo) == Some(nmea_checksum(payload) % 16u8)),
{
    let n = payload.len() as int;
    let ck = nmea_checksum(payload);
    lemma_nmea_payload_prefix(p, payload, n);
    assert(payload.take(n) =~= payload);
    let t0 = seq![36u8] + payload;
    let t1 = t0.push(42u8);
    let t2 = t1.push(hi);
    let t3 = t2.push(lo);
    let t4 = t3.push(13u8);
    let t5 = t4.push(10u8);
    lemma_nmea_feed_push(p, t0, 42u8);
    lemma_nmea_feed_push(p, t1, hi);
    lemma_nmea_feed_push(p, t2, lo);
    lemma_nmea_feed_push(p, t3, 13u8);
    lemma_nmea_feed_push(p, t4, 10u8);
    assert(nmea_sentence(payload, hi, lo) =~= t5);
    assert(nmea_feed(p, t1).state == NmeaState::WaitingForChecksum1 { calculated_checksum: ck });
    lemma_hex_digit_small(hi);
    lemma_hex_digit_small(lo);
    if let Some(h) = hex_digit_value(hi) {
        if let Some(v) = hex_digit_value(lo) {
            lemma_checksum_digits_decide(ck, h, v);
        }
    }
}

/// Whether `hi` and `lo` are the two hexadecimal digits (either case) of the checksum of
/// `payload`.
pub open spec fn nmea_checksum_digits(payload: Seq<u8>, hi: u8, lo: u8) -> bool {
    &&& hex_digit_value(hi) == Some(nmea_checksum(payload) / 16u8)
    &&& hex_digit_value(lo) == Some(nmea_checksum(payload) % 16u8)
}

/// `$`, the payload and `*`: the part of a sentence before its checksum digits.
pub open spec fn nmea_opening(payload: Seq<u8>) -> Seq<u8> {
    seq![36u8] + payload + seq![42u8]
}

/// What holds of the assembler after the bytes `s`: its payload is made of payload bytes and
/// fits the buffer, and the bytes received end with the part of a sentence that its state
/// stands for (with the running XOR of the payload, and checked checksum digits).
pub open spec fn nmea_framed(p: NmeaParserView, s: Seq<u8>) -> bool {
    let n = s.len() as int;
    let ck = nmea_checksum(p.payload);
    &&& p.payload.len() <= nmea_buffer_size()
    &&& forall|i: int| 0 <= i < p.payload.len() ==> is_payload_byte(#[trigger] p.payload[i])
    &&& match p.state {
        NmeaState::WaitingForStart => true,
        NmeaState::InPayload { calculated_checksum } => {
            &&& calculated_checksum == ck
            &&& (seq![36u8] + p.payload).is_suffix_of(s)
        },
        NmeaState::WaitingForChecksum1 { calculated_checksum } => {
            &&& calculated_checksum == ck
            &&& nmea_opening(p.payload).is_suffix_of(s)
        },
        NmeaState::WaitingForChecksum2 { calculated_checksum, received_checksum_high } => {
            &&& calculated_checksum == ck
            &&& n >= 1
            &&& nmea_opening(p.payload).is_suffix_of(s.take(n - 1))
            &&& hex_digit_value(s[n - 1]) == Some(received_checksum_high)
        },
        NmeaState::WaitingForCr => {
            &&& n >= 2
            &&& nmea_opening(p.payload).is_suffix_of(s.take(n - 2))
            &&& nmea_checksum_digits(p.payload, s[n - 2], s[n - 1])
        },
        NmeaState::WaitingForLf => {
            &&& n >= 3
            &&& nmea_opening(p.payload).is_suffix_of(s.take(n - 3))
            &&& nmea_checksum_digits(p.payload, s[n - 3], s[n - 2])
            &&& s[n - 1] == 13
        },
    }
    &&& p.complete ==> {
        &&& n >= 4
        &&& nmea_sentence(p.payload, s[n - 4], s[n - 3]).is_suffix_of(s)
        &&& nmea_checksum_digits(p.payload, s[n - 4], s[n - 3])
    }
}

proof fn lemma_suffix_extend(t: Seq<u8>, s: Seq<u8>, m: int)
    requires
        0 <= m <= s.len(),
        t.is_suffix_of(s.take(m)),
    ensures
        (t + s.skip(m)).is_suffix_of(s),
{
    let u = t + s.skip(m);
    assert(u =~= s.subrange(s.len() - u.len(), s.len() as int)) by {
        assert forall|i: int| 0 <= i < u.len() implies u[i] == s[s.len() - u.len() + i] by {
            if i < t.len() {
                assert(t[i] == s.take(m)[m - t.len() + i]);
            }
        }
    }
}

proof fn lemma_nmea_checksum_push(payload: Seq<u8>, b: u8)
    ensures
        nmea_checksum(payload.push(b)) == nmea_checksum(payload) ^ b,
{
    assert(payload.push(b).drop_last() =~= payload);
}

/// Each byte keeps `nmea_framed`.
#[verifier::spinoff_prover]
proof fn lemma_nmea_framed_step(p: NmeaParserView, s: Seq<u8>, b: u8)
    requires
        nmea_framed(p, s),
    ensures
        nmea_framed(nmea_parser_step(p, b), s.push(b)),
{
    let q = nmea_parser_step(p, b);
    let t = s.push(b);
    let n = s.len() as int;
    assert(t.take(n) =~= s);
    assert(t.skip(n) =~= seq![b]);
    if b == 36 {
        assert(q.payload =~= Seq::<u8>::empty());
        assert(seq![36u8] + q.payload =~= seq![36u8]);
        assert(Seq::<u8>::empty().is_suffix_of(s.take(n)));
        lemma_suffix_extend(Seq::<u8>::empty(), t, n);
        assert(Seq::<u8>::empty() + t.skip(n) =~= seq![36u8]);
    } else {
        match p.state {
            NmeaState::WaitingForStart => {},
            NmeaState::InPayload { calculated_checksum } => {
                let head = seq![36u8] + p.payload;
                lemma_suffix_extend(head, t, n);
                if b == 42 {
                    assert(head + t.skip(n) =~= nmea_opening(p.payload));
                } else if (is_graphic(b) || b == 32) && p.payload.len() < nmea_buffer_size() {
                    lemma_nmea_checksum_push(p.payload, b);
                    assert(head + t.skip(n) =~= seq![36u8] + q.payload);
                    assert(forall|i: int|
                        0 <= i < p.payload.len() ==> q.payload[i] == p.payload[i]);
                    assert(is_payload_byte(q.payload[p.payload.len() as int]));
                } else if is_graphic(b) || b == 32 {
                    assert(q.payload =~= Seq::<u8>::empty());
                }
            },
            NmeaState::WaitingForChecksum1 { calculated_checksum } => {},
            NmeaState::WaitingForChecksum2 { calculated_checksum, received_checksum_high } => {
                assert(t.take(n - 1) =~= s.take(n - 1));
                lemma_hex_digit_small(b);
                lemma_hex_digit_small(s[n - 1]);
                if let Some(v) = hex_digit_value(b) {
                    lemma_checksum_digits_decide(calculated_checksum, received_checksum_high, v);
                }
            },
            NmeaState::WaitingForCr => {
                assert(t.take(n - 2) =~= s.take(n - 2));
            },
            NmeaState::WaitingForLf => {
                if b == 10 {
                    let open = nmea_opening(p.payload);
                    assert(t.take(n - 3) =~= s.take(n - 3));
                    lemma_suffix_extend(open, t, n - 3);
                    assert(open + t.skip(n - 3) =~= nmea_sentence(p.payload, t[n - 3], t[n - 2]));
                }
            },
        }
    }
}

/// `nmea_framed` holds of the assembler after any byte stream fed from its initial state.
pub proof fn lemma_nmea_feed_framed(s: Seq<u8>)
    ensures
        nmea_framed(nmea_feed(NmeaParser::initial_view(), s), s),
    decreases s.len(),
{
    if s.len() > 0 {
        lemma_nmea_feed_framed(s.drop_last());
        lemma_nmea_framed_step(nmea_feed(NmeaParser::initial_view(), s.drop_last()), s.drop_last(), s.last());
        assert(s.drop_last().push(s.last()) =~= s);
    }
}

/// After any byte stream fed from its initial state, a payload that the assembler reports
/// was framed at the end of the bytes received: `$`, the payload (at most 80 payload bytes:
/// printable, neither `$` nor `*`), `*`, the two hexadecimal digits of the XOR of its bytes,
/// CR and LF.
pub proof fn lemma_nmea_completed_sentence_is_framed(s: Seq<u8>)
    ensures
        ({
            let p = nmea_feed(NmeaParser::initial_view(), s);
            let n = s.len() as int;
            p.complete ==> {
                &&& n >= 4
                &&& nmea_sentence(p.payload, s[n - 4], s[n - 3]).is_suffix_of(s)
                &&& nmea_checksum_digits(p.payload, s[n - 4], s[n - 3])
                &&& p.payload.len() <= nmea_buffer_size()
                &&& forall|i: int| 0 <= i < p.payload.len() ==> is_payload_byte(#[trigger] p.payload[i])
            }
        }),
{
    lemma_nmea_feed_framed(s);
}

impl Default for NmeaParser {
    fn default() -> (r: Self)
        ensures
            r@ == Self::initial_view(),
    {
        Self::new()
    }
}

/// The ASCII digits `0` to `9`.
pub open spec fn is_digit(b: u8) -> bool {
    48 <= b <= 57
}

/// Every byte of `s` is an ASCII digit.
pub open spec fn all_digits(s: Seq<u8>) -> bool {
    forall|i: int| 0 <= i < s.len() ==> is_digit(#[trigger] s[i])
}

/// The number that the ASCII digits `s` spell in base ten (most significant first).
pub open spec fn decimal_value(s: Seq<u8>) -> int
    decreases s.len(),
{
    if s.len() == 0 {
        0
    } else {
        decimal_value(s.drop_last()) * 10 + (s.last() - 48)
    }
}

/// What `parse_int` returns: the decimal value of a non-empty run of digits that fits a `u32`.
pub open spec fn spec_parse_int(s: Seq<u8>) -> Option<u32> {
    if s.len() > 0 && all_digits(s) && decimal_value(s) <= u32::MAX {
        Some(decimal_value(s) as u32)
    } else {
        None
    }
}

pub proof fn lemma_decimal_value_nonneg(s: Seq<u8>)
    requires
        all_digits(s),
    ensures
        decimal_value(s) >= 0,
    decreases s.len(),
{
    if s.len() > 0 {
        lemma_decimal_value_nonneg(s.drop_last());
    }
}

/// A prefix of a run of digits spells a number no larger than the whole run.
pub proof fn lemma_decimal_prefix_le(s: Seq<u8>, i: int)
    requires
        all_digits(s),
        0 <= i <= s.len(),
    ensures
        decimal_value(s.take(i)) <= decimal_value(s),
    decreases s.len() - i,
{
    if i < s.len() {
        let t = s.take(i + 1);
        assert(t.drop_last() =~= s.take(i));
        assert(all_digits(s.take(i)));
        lemma_decimal_value_nonneg(s.take(i));
        lemma_decimal_prefix_le(s, i + 1);
    } else {
        assert(s.take(i) =~= s);
    }
}

/// One more digit appended to a prefix.
pub proof fn lemma_decimal_step(s: Seq<u8>, i: int)
    requires
        0 <= i < s.len(),
    ensures
        decimal_value(s.take(i + 1)) == decimal_value(s.take(i)) * 10 + (s[i] - 48),
{
    assert(s.take(i + 1).drop_last() =~= s.take(i));
}

/// Parses a byte slice into an integer.
pub fn parse_int(bytes: &[u8]) -> (r: Option<u32>)
    ensures
        r == spec_parse_int(bytes@),
{
    if bytes.len() == 0 {
        return None;
    }
    let mut val: u32 = 0;
    let mut i: usize = 0;
    while i < bytes.len()
        invariant
            0 <= i <= bytes.len(),
            bytes.len() > 0,
            all_digits(bytes@.take(i as int)),
            val as int == decimal_value(bytes@.take(i as int)),
        decreases bytes.len() - i,
    {
        let b = bytes[i];
        if !(b >= 48 && b <= 57) {
            assert(!all_digits(bytes@));
            return None;
        }
        proof {
            lemma_decimal_step(bytes@, i as int);
        }
        if val > 429_496_729 || (val == 429_496_729 && b - 48 > 5) {
            proof {
                assert(all_digits(bytes@.take(i as int + 1)));
                if all_digits(bytes@) {
                    lemma_decimal_prefix_le(bytes@, i as int + 1);
                }
            }
            return None;
        }
        val = val * 10 + (b - 48) as u32;
        i = i + 1;
        assert(all_digits(bytes@.take(i as int)));
    }
    assert(bytes@.take(i as int) =~= bytes@);
    Some(val)
}


/// Index of the first `c` in `s`, or `s.len()` where there is none.
pub open spec fn first_index_of(s: Seq<u8>, c: u8) -> int
    decreases s.len(),
{
    if s.len() == 0 {
        0
    } else if s[0] == c {
        0
    } else {
        1 + first_index_of(s.drop_first(), c)
    }
}

/// Index of the first `.` in `s`, or `s.len()` where there is none.
pub open spec fn first_dot(s: Seq<u8>) -> int {
    first_index_of(s, 46)
}

/// Ten to the power `n`.
pub open spec fn pow10(n: nat) -> int
    decreases n,
{
    if n == 0 {
        1
    } else {
        10 * pow10((n - 1) as nat)
    }
}

/// The fractional digits `f` in units of `1/scale`: the digit at position `j`
/// counts `scale / 10^(j+1)` (rounded down), so digits past the scale's precision count nothing.
pub open spec fn frac_value(f: Seq<u8>, scale: int) -> int
    decreases f.len(),
{
    if f.len() == 0 {
        0
    } else {
        frac_value(f.drop_last(), scale) + (f.last() - 48) * (scale / pow10(f.len()))
    }
}

proof fn lemma_frac_step(f: Seq<u8>, m: int, scale: int)
    requires
        0 <= m < f.len(),
    ensures
        frac_value(f.take(m + 1), scale) == frac_value(f.take(m), scale) + (f[m] - 48) * (scale
            / pow10((m + 1) as nat)),
{
    let t = f.take(m + 1);
    assert(t.drop_last() =~= f.take(m));
    assert(t.last() == f[m]);
    assert(t.len() == m + 1);
}

/// `scale / 10^(m+1)` is a tenth of `scale / 10^m`, rounded down.
proof fn lemma_scale_step(scale: int, m: nat)
    requires
        scale >= 0,
    ensures
        (scale / pow10(m)) / 10 == scale / pow10(m + 1),
        scale / pow10(m + 1) <= scale,
        scale / pow10(m + 1) <= scale / 10,
{
    lemma_pow10_pos(m);
    lemma_pow10_pos(m + 1);
    vstd::arithmetic::div_mod::lemma_div_denominator(scale, pow10(m), 10);
    assert(pow10(m + 1) == 10 * pow10(m));
    assert(pow10(m) * 10 == pow10(m + 1)) by (nonlinear_arith)
        requires
            pow10(m + 1) == 10 * pow10(m),
    ;
    let p = pow10(m + 1);
    assert(scale / p <= scale) by (nonlinear_arith)
        requires
            p >= 1,
            scale >= 0,
    ;
    let q = pow10(m);
    assert(scale / q <= scale) by (nonlinear_arith)
        requires
            q >= 1,
            scale >= 0,
    ;
    vstd::arithmetic::div_mod::lemma_div_is_ordered(scale / q, scale, 10);
}

/// The text of a fixed-point number after an optional leading `-`.
pub open spec fn fixed_point_body(s: Seq<u8>) -> Seq<u8> {
    if s.len() > 0 && s[0] == 45 {
        s.skip(1)
    } else {
        s
    }
}

pub open spec fn fixed_point_is_negative(s: Seq<u8>) -> bool {
    s.len() > 0 && s[0] == 45
}

/// The digits before the decimal point.
pub open spec fn fixed_point_int_digits(s: Seq<u8>) -> Seq<u8> {
    fixed_point_body(s).take(first_dot(fixed_point_body(s)))
}

/// The digits after the decimal point (empty where there is no point).
pub open spec fn fixed_point_frac_digits(s: Seq<u8>) -> Seq<u8> {
    let b = fixed_point_body(s);
    if first_dot(b) < b.len() {
        b.skip(first_dot(b) + 1)
    } else {
        Seq::empty()
    }
}

/// `[-]digits[.digits]` with at least one digit before the point.
pub open spec fn fixed_point_well_formed(s: Seq<u8>) -> bool {
    &&& first_dot(fixed_point_body(s)) >= 1
    &&& all_digits(fixed_point_int_digits(s))
    &&& all_digits(fixed_point_frac_digits(s))
}

/// The absolute value of the number in units of `1/scale`, excess fractional digits truncated.
pub open spec fn fixed_point_magnitude(s: Seq<u8>, scale: int) -> int {
    decimal_value(fixed_point_int_digits(s)) * scale + frac_value(fixed_point_frac_digits(s), scale)
}

/// What `parse_fixed_point` returns.
pub open spec fn spec_parse_fixed_point(s: Seq<u8>, scale: u32) -> Option<i32> {
    if fixed_point_well_formed(s) && 0 < scale <= i32::MAX && fixed_point_magnitude(s, scale as int)
        <= i32::MAX {
        if fixed_point_is_negative(s) {
            Some((-fixed_point_magnitude(s, scale as int)) as i32)
        } else {
            Some(fixed_point_magnitude(s, scale as int) as i32)
        }
    } else {
        None
    }
}

proof fn lemma_first_index_at(s: Seq<u8>, c: u8, k: int)
    requires
        0 <= k <= s.len(),
        forall|j: int| 0 <= j < k ==> s[j] != c,
        k == s.len() || s[k] == c,
    ensures
        first_index_of(s, c) == k,
    decreases k,
{
    if k > 0 {
        let t = s.drop_first();
        assert forall|j: int| 0 <= j < k - 1 implies t[j] != c by {
            assert(t[j] == s[j + 1]);
        }
        lemma_first_index_at(t, c, k - 1);
    }
}

pub proof fn lemma_first_index_after(s: Seq<u8>, c: u8, k: int)
    requires
        0 <= k <= s.len(),
        forall|j: int| 0 <= j < k ==> s[j] != c,
    ensures
        first_index_of(s, c) >= k,
        first_index_of(s, c) <= s.len(),
    decreases s.len(),
{
    if s.len() > 0 && s[0] != c {
        let t = s.drop_first();
        if k > 0 {
            assert forall|j: int| 0 <= j < k - 1 implies t[j] != c by {
                assert(t[j] == s[j + 1]);
            }
            lemma_first_index_after(t, c, k - 1);
        } else {
            lemma_first_index_after(t, c, 0);
        }
    }
}

proof fn lemma_first_dot_at(s: Seq<u8>, k: int)
    requires
        0 <= k <= s.len(),
        forall|j: int| 0 <= j < k ==> s[j] != 46,
        k == s.len() || s[k] == 46,
    ensures
        first_dot(s) == k,
{
    lemma_first_index_at(s, 46, k);
}

proof fn lemma_first_dot_after(s: Seq<u8>, k: int)
    requires
        0 <= k <= s.len(),
        forall|j: int| 0 <= j < k ==> s[j] != 46,
    ensures
        first_dot(s) >= k,
        first_dot(s) <= s.len(),
{
    lemma_first_index_after(s, 46, k);
}

proof fn lemma_pow10_pos(n: nat)
    ensures
        pow10(n) >= 1,
    decreases n,
{
    if n > 0 {
        lemma_pow10_pos((n - 1) as nat);
    }
}

proof fn lemma_frac_value_nonneg(f: Seq<u8>, scale: int)
    requires
        all_digits(f),
        scale >= 0,
    ensures
        frac_value(f, scale) >= 0,
    decreases f.len(),
{
    if f.len() > 0 {
        assert(all_digits(f.drop_last()));
        lemma_frac_value_nonneg(f.drop_last(), scale);
        lemma_pow10_pos(f.len());
        let q = scale / pow10(f.len());
        assert(q >= 0) by (nonlinear_arith)
            requires
                scale >= 0,
                pow10(f.len()) >= 1,
                q == scale / pow10(f.len()),
        ;
        assert((f.last() - 48) * q >= 0) by (nonlinear_arith)
            requires
                f.last() - 48 >= 0,
                q >= 0,
        ;
    }
}

proof fn lemma_frac_prefix_le(f: Seq<u8>, i: int, scale: int)
    requires
        all_digits(f),
        0 <= i <= f.len(),
        scale >= 0,
    ensures
        frac_value(f.take(i), scale) <= frac_value(f, scale),
    decreases f.len() - i,
{
    if i < f.len() {
        let t = f.take(i + 1);
        assert(t.drop_last() =~= f.take(i));
        assert(all_digits(t));
        lemma_frac_value_nonneg(t, scale);
        lemma_pow10_pos(t.len());
        let q = scale / pow10(t.len());
        assert(q >= 0) by (nonlinear_arith)
            requires
                scale >= 0,
                pow10(t.len()) >= 1,
                q == scale / pow10(t.len()),
        ;
        assert((t.last() - 48) * q >= 0) by (nonlinear_arith)
            requires
                t.last() - 48 >= 0,
                q >= 0,
        ;
        lemma_frac_prefix_le(f, i + 1, scale);
    } else {
        assert(f.take(i) =~= f);
    }
}

/// A leading `-` negates: `-s` reads as the negation of `s` (for `s` without a sign of its own),
/// and is accepted exactly when `s` is.
pub proof fn lemma_fixed_point_sign(s: Seq<u8>, scale: u32)
    requires
        s.len() > 0,
        s[0] != 45,
    ensures
        spec_parse_fixed_point(seq![45u8] + s, scale) is Some <==> spec_parse_fixed_point(s, scale) is Some,
        spec_parse_fixed_point(s, scale) matches Some(v) ==> v >= 0
            && spec_parse_fixed_point(seq![45u8] + s, scale)->0 == -v,
{
    let t = seq![45u8] + s;
    assert(t.skip(1) =~= s);
    assert(fixed_point_body(t) == s);
    assert(fixed_point_body(s) == s);
    if fixed_point_well_formed(s) && 0 < scale {
        lemma_decimal_value_nonneg(fixed_point_int_digits(s));
        lemma_frac_value_nonneg(fixed_point_frac_digits(s), scale as int);
        lemma_pow10_pos(0);
        assert(decimal_value(fixed_point_int_digits(s)) * scale >= 0) by (nonlinear_arith)
            requires
                decimal_value(fixed_point_int_digits(s)) >= 0,
                scale > 0,
        ;
    }
}

/// A whole number (digits only) reads as its value times `scale`, where that fits an `i32`.
pub proof fn lemma_fixed_point_whole(s: Seq<u8>, scale: u32)
    requires
        s.len() > 0,
        all_digits(s),
        0 < scale <= i32::MAX,
    ensures
        spec_parse_fixed_point(s, scale) == (if decimal_value(s) * scale <= i32::MAX {
            Some((decimal_value(s) * scale) as i32)
        } else {
            None
        }),
{
    assert(s[0] != 45);
    assert(fixed_point_body(s) == s);
    assert forall|j: int| 0 <= j < s.len() implies s[j] != 46 by {
        assert(is_digit(s[j]));
    }
    lemma_first_index_at(s, 46, s.len() as int);
    assert(s.take(s.len() as int) =~= s);
    assert(fixed_point_frac_digits(s) =~= Seq::<u8>::empty());
}

/// Parses a decimal fixed-point value without allocation.
///
/// `scale` is the number of units per whole number, normally a power of ten:
/// `12.34` with scale 100 gives 1234, `12.3` gives 1230 and `12` gives 1200.
/// Excess fractional digits are truncated.
pub fn parse_fixed_point(bytes: &[u8], scale: u32) -> (r: Option<i32>)
    ensures
        r == spec_parse_fixed_point(bytes@, scale),
{
    if bytes.len() == 0 || scale == 0 {
        return None;
    }
    let ghost s = bytes@;
    let ghost body = fixed_point_body(s);
    let negative = bytes[0] == 45;
    let mut index: usize = 0;
    if negative {
        index = 1;
        if index == bytes.len() {
            proof {
                assert(body.len() == 0);
            }
            return None;
        }
    }
    let start = index;
    assert(body =~= s.skip(start as int));
    let mut integer_part: i32 = 0;
    while index < bytes.len() && bytes[index] != 46
        invariant
            start == (if negative { 1usize } else { 0usize }),
            negative == (s[0] == 45),
            s == bytes@,
            s.len() > 0,
            0 < scale,
            body == s.skip(start as int),
            body == fixed_point_body(s),
            integer_part >= 0,
            start <= index <= bytes.len(),
            forall|j: int| 0 <= j < index - start ==> body[j] != 46,
            all_digits(body.take(index - start)),
            integer_part as int == decimal_value(body.take(index - start)),
        decreases bytes.len() - index,
    {
        let byte = bytes[index];
        let ghost k = (index - start) as int;
        assert(body[k] == byte);
        if byte < 48 || byte > 57 {
            proof {
                lemma_first_dot_after(body, k + 1);
                let ip = fixed_point_int_digits(s);
                assert(ip.len() == first_dot(body));
                assert(ip[k] == body[k]);
            }
            return None;
        }
        proof {
            lemma_decimal_step(body, k);
        }
        if integer_part > 214_748_364 || (integer_part == 214_748_364 && byte - 48 > 7) {
            proof {
                assert(all_digits(body.take(k + 1)));
                lemma_first_dot_after(body, k + 1);
                let ip = fixed_point_int_digits(s);
                assert(ip.take(k + 1) =~= body.take(k + 1));
                if fixed_point_well_formed(s) {
                    lemma_decimal_prefix_le(ip, k + 1);
                    lemma_frac_value_nonneg(fixed_point_frac_digits(s), scale as int);
                    let d = decimal_value(ip);
                    assert(d * scale >= d) by (nonlinear_arith)
                        requires
                            d >= 0,
                            scale >= 1,
                    ;
                }
            }
            return None;
        }
        integer_part = integer_part * 10 + (byte - 48) as i32;
        index = index + 1;
        proof {
            lemma_decimal_value_nonneg(body.take(k));
        }
        assert(all_digits(body.take(index - start)));
    }
    let ghost d = (index - start) as int;
    proof {
        lemma_first_dot_at(body, d);
        assert(fixed_point_int_digits(s) =~= body.take(d));
    }
    if index == start {
        return None;
    }
    if scale > 2_147_483_647 {
        return None;
    }
    let scale_i32 = scale as i32;
    proof {
        lemma_decimal_value_nonneg(body.take(d));
    }
    let ghost ipv = integer_part as int;
    assert(0 <= integer_part as i64 * scale_i32 as i64 <= 4_611_686_014_132_420_609) by (nonlinear_arith)
        requires
            0 <= integer_part <= 2_147_483_647,
            1 <= scale_i32 <= 2_147_483_647,
    ;
    if integer_part as i64 * scale_i32 as i64 > 2_147_483_647 {
        proof {
            if fixed_point_well_formed(s) {
                lemma_frac_value_nonneg(fixed_point_frac_digits(s), scale as int);
            }
        }
        return None;
    }
    let mut result: i32 = integer_part * scale_i32;
    assert(result >= 0) by (nonlinear_arith)
        requires
            result == integer_part * scale_i32,
            integer_part >= 0,
            scale_i32 >= 1,
    ;
    if index < bytes.len() {
        index = index + 1;
        let fstart = index;
        let ghost f = body.skip(d + 1);
        assert(f =~= s.skip(fstart as int));
        assert(fixed_point_frac_digits(s) =~= f);
        let mut fractional_scale: u32 = scale;
        assert(f.take(0) =~= Seq::<u8>::empty());
        assert(pow10(0) == 1);
        while index < bytes.len()
            invariant
                s == bytes@,
                f == s.skip(fstart as int),
                fstart <= index <= bytes.len(),
                fixed_point_frac_digits(s) == f,
                0 < scale <= 2_147_483_647,
                all_digits(f.take(index - fstart)),
                fractional_scale as int == scale as int / pow10((index - fstart) as nat),
                result as int == ipv * scale + frac_value(f.take(index - fstart), scale as int),
                result >= 0,
                ipv >= 0,
                fixed_point_int_digits(s) == body.take(d),
                decimal_value(body.take(d)) == ipv,
                all_digits(body.take(d)),
                d >= 1,
                first_dot(body) == d,
                body == fixed_point_body(s),
                negative == fixed_point_is_negative(s),
            decreases bytes.len() - index,
        {
            let byte = bytes[index];
            let ghost m = (index - fstart) as int;
            assert(f[m] == byte);
            if byte < 48 || byte > 57 {
                return None;
            }
            let digit = byte - 48;
            proof {
                lemma_scale_step(scale as int, m as nat);
                lemma_frac_step(f, m, scale as int);
            }
            fractional_scale = fractional_scale / 10;
            assert(fractional_scale as int == scale as int / pow10((m + 1) as nat));
            if fractional_scale != 0 {
                assert(fractional_scale <= 214_748_365);
                assert(0 <= digit as i32 * fractional_scale as i32 <= 1_932_735_285) by (nonlinear_arith)
                    requires
                        0 <= digit <= 9,
                        0 <= fractional_scale <= 214_748_365,
                ;
                let contribution: i32 = digit as i32 * fractional_scale as i32;
                if result > 2_147_483_647 - contribution {
                    proof {
                        assert(all_digits(f.take(m + 1)));
                        if fixed_point_well_formed(s) {
                            lemma_frac_prefix_le(f, m + 1, scale as int);
                        }
                    }
                    return None;
                }
                result = result + contribution;
                assert(contribution as int == (f[m] - 48) * (scale as int / pow10((m + 1) as nat)));
            } else {
                let ghost w = scale as int / pow10((m + 1) as nat);
                assert((f[m] - 48) * w == 0) by (nonlinear_arith)
                    requires
                        w == 0,
                ;
            }
            assert(result as int == ipv * scale + frac_value(f.take(m + 1), scale as int));
            index = index + 1;
            assert(all_digits(f.take(index - fstart)));
        }
        assert(f.take(index - fstart) =~= f);
    } else {
        assert(fixed_point_frac_digits(s) =~= Seq::<u8>::empty());
        assert(frac_value(Seq::<u8>::empty(), scale as int) == 0);
    }
    if negative {
        Some(-result)
    } else {
        Some(result)
    }
}


proof fn lemma_decimal_value_bound(s: Seq<u8>)
    requires
        all_digits(s),
    ensures
        0 <= decimal_value(s) < pow10(s.len()),
    decreases s.len(),
{
    if s.len() > 0 {
        lemma_decimal_value_bound(s.drop_last());
    }
}

/// The decimal value of `bytes[start..end]` where those bytes are all digits.
fn parse_digit_run(bytes: &[u8], start: usize, end: usize) -> (r: Option<u32>)
    requires
        start <= end <= bytes.len(),
        end - start <= 9,
    ensures
        r == (if all_digits(bytes@.subrange(start as int, end as int)) {
            Some(decimal_value(bytes@.subrange(start as int, end as int)) as u32)
        } else {
            None
        }),
{
    let ghost run = bytes@.subrange(start as int, end as int);
    let mut val: u32 = 0;
    let mut i: usize = start;
    while i < end
        invariant
            start <= i <= end <= bytes.len(),
            end - start <= 9,
            run == bytes@.subrange(start as int, end as int),
            all_digits(run.take(i - start)),
            val as int == decimal_value(run.take(i - start)),
            val < pow10((i - start) as nat),
        decreases end - i,
    {
        let b = bytes[i];
        assert(run[i - start] == b);
        if b < 48 || b > 57 {
            return None;
        }
        proof {
            lemma_decimal_step(run, i - start);
            assert(pow10((i - start + 1) as nat) == 10 * pow10((i - start) as nat));
            assert(pow10(8) == 100_000_000) by {
                reveal_with_fuel(pow10, 9);
            }
            lemma_pow10_monotone((i - start) as nat, 8);
        }
        val = val * 10 + (b - 48) as u32;
        i = i + 1;
        assert(all_digits(run.take(i - start)));
    }
    assert(run.take(i - start) =~= run);
    Some(val)
}

proof fn lemma_pow10_monotone(a: nat, b: nat)
    requires
        a <= b,
    ensures
        pow10(a) <= pow10(b),
    decreases b,
{
    if a < b {
        lemma_pow10_monotone(a, (b - 1) as nat);
        lemma_pow10_pos((b - 1) as nat);
    }
}

/// `frac_value(bytes[start..], scale)` where the rest of `bytes` is all digits.
fn parse_frac_run(bytes: &[u8], start: usize, scale: u32) -> (r: Option<u32>)
    requires
        start <= bytes.len(),
        0 < scale <= 10_000,
    ensures
        r == (if all_digits(bytes@.skip(start as int)) {
            Some(frac_value(bytes@.skip(start as int), scale as int) as u32)
        } else {
            None
        }),
        r matches Some(v) ==> v < scale && v as int == frac_value(bytes@.skip(start as int), scale as int),
{
    let ghost f = bytes@.skip(start as int);
    let mut weight: u32 = scale;
    let mut total: u32 = 0;
    let mut i: usize = start;
    assert(f.take(0) =~= Seq::<u8>::empty());
    while i < bytes.len()
        invariant
            start <= i <= bytes.len(),
            0 < scale <= 10_000,
            f == bytes@.skip(start as int),
            all_digits(f.take(i - start)),
            weight as int == scale as int / pow10((i - start) as nat),
            total as int == frac_value(f.take(i - start), scale as int),
            total + weight <= scale,
            total < scale,
        decreases bytes.len() - i,
    {
        let b = bytes[i];
        let ghost m = (i - start) as int;
        assert(f[m] == b);
        if b < 48 || b > 57 {
            return None;
        }
        proof {
            lemma_scale_step(scale as int, m as nat);
            lemma_frac_step(f, m, scale as int);
        }
        let w = weight / 10;
        assert((b - 48) * w <= 9 * w) by (nonlinear_arith)
            requires
                0 <= b - 48 <= 9,
                w >= 0,
        ;
        total = total + (b - 48) as u32 * w;
        weight = w;
        i = i + 1;
        assert(all_digits(f.take(i - start)));
    }
    assert(f.take(i - start) =~= f);
    Some(total)
}

proof fn lemma_all_digits_subrange(s: Seq<u8>, a: int, c: int)
    requires
        all_digits(s),
        0 <= a <= c <= s.len(),
    ensures
        all_digits(s.subrange(a, c)),
{
    assert forall|i: int| 0 <= i < c - a implies is_digit(#[trigger] s.subrange(a, c)[i]) by {
        assert(s.subrange(a, c)[i] == s[a + i]);
    }
}

/// The two ASCII digits of `bytes` as a number, where `bytes` is exactly two digits.
fn parse_two_digits(bytes: &[u8]) -> (r: Option<u8>)
    ensures
        r == (if bytes@.len() == 2 && all_digits(bytes@) {
            Some(decimal_value(bytes@) as u8)
        } else {
            None
        }),
{
    if bytes.len() != 2 {
        return None;
    }
    let tens = bytes[0];
    let units = bytes[1];
    if tens < 48 || tens > 57 || units < 48 || units > 57 {
        proof {
            assert(!is_digit(bytes@[0]) || !is_digit(bytes@[1]));
        }
        return None;
    }
    proof {
        assert(bytes@.drop_last().drop_last() =~= Seq::<u8>::empty());
        assert(bytes@.drop_last().last() == tens);
        assert(decimal_value(bytes@.drop_last().drop_last()) == 0);
        assert(decimal_value(bytes@.drop_last()) == tens - 48);
        assert(all_digits(bytes@));
    }
    Some((tens - 48) * 10 + (units - 48))
}

/// What `parse_nmea_time` returns: milliseconds since midnight of `hhmmss[.fff...]`.
pub open spec fn spec_parse_nmea_time(b: Seq<u8>) -> Option<u32> {
    if b.len() < 6 || !all_digits(b.take(6)) {
        None
    } else {
        let hour = decimal_value(b.subrange(0, 2));
        let minute = decimal_value(b.subrange(2, 4));
        let second = decimal_value(b.subrange(4, 6));
        if hour >= 24 || minute >= 60 || second >= 60 {
            None
        } else if b.len() > 6 && (b[6] != 46 || !all_digits(b.skip(7))) {
            None
        } else {
            let fraction_ms = if b.len() > 6 {
                frac_value(b.skip(7), 1000)
            } else {
                0
            };
            Some((hour * 3_600_000 + minute * 60_000 + second * 1_000 + fraction_ms) as u32)
        }
    }
}

proof fn lemma_frac_below(f: Seq<u8>, scale: int)
    requires
        all_digits(f),
        scale >= 0,
    ensures
        frac_value(f, scale) + scale / pow10(f.len()) <= scale,
    decreases f.len(),
{
    let n = f.len();
    lemma_pow10_pos(n);
    if n == 0 {
        assert(pow10(0) == 1);
    } else {
        let g = f.drop_last();
        assert(all_digits(g));
        lemma_frac_below(g, scale);
        lemma_scale_step(scale, (n - 1) as nat);
        lemma_pow10_pos((n - 1) as nat);
        let q = scale / pow10(n);
        let q0 = scale / pow10((n - 1) as nat);
        assert(q0 >= 0 && q >= 0) by {
            vstd::arithmetic::div_mod::lemma_div_pos_is_pos(scale, pow10(n));
            vstd::arithmetic::div_mod::lemma_div_pos_is_pos(scale, pow10((n - 1) as nat));
        }
        assert(q * 10 <= q0) by {
            vstd::arithmetic::div_mod::lemma_fundamental_div_mod(q0, 10);
        }
        let d: int = f.last() - 48;
        assert(0 <= d <= 9);
        assert(d * q + q <= 10 * q) by (nonlinear_arith)
            requires
                0 <= d <= 9,
                q >= 0,
        ;
    }
}

proof fn lemma_frac_below_power(f: Seq<u8>, k: nat)
    requires
        all_digits(f),
    ensures
        0 <= frac_value(f, pow10(k)) < pow10(k),
    decreases f.len(),
{
    let scale = pow10(k);
    lemma_pow10_pos(k);
    lemma_frac_value_nonneg(f, scale);
    if f.len() <= k {
        lemma_frac_below(f, scale);
        lemma_pow10_monotone(f.len(), k);
        lemma_pow10_pos(f.len());
        let p: int = pow10(f.len());
        assert(scale / p >= 1) by (nonlinear_arith)
            requires
                1 <= p <= scale,
        {
            vstd::arithmetic::div_mod::lemma_fundamental_div_mod(scale, p);
        }
    } else {
        let g = f.drop_last();
        assert(all_digits(g));
        lemma_frac_below_power(g, k);
        lemma_pow10_monotone(k + 1, f.len());
        assert(pow10(k + 1) == 10 * pow10(k));
        let p: int = pow10(f.len());
        assert(scale / p == 0) by {
            vstd::arithmetic::div_mod::lemma_basic_div(scale, p);
        }
        let d: int = f.last() - 48;
        assert(f.len() > 0);
        assert(frac_value(f, scale) == frac_value(f.drop_last(), scale) + (f.last() - 48) * (scale
            / pow10(f.len())));
        assert(frac_value(f, scale) == frac_value(g, scale) + d * (scale / p));
    }
}

proof fn lemma_frac_ms_below(f: Seq<u8>)
    requires
        all_digits(f),
    ensures
        0 <= frac_value(f, 1000) < 1000,
{
    reveal_with_fuel(pow10, 4);
    lemma_frac_below_power(f, 3);
}

/// A UTC time of day `hhmmss[.sss]` is read into milliseconds since midnight below one day:
/// its whole hours are the two digits at 0, its minutes within the hour the two digits at 2,
/// its seconds within the minute the two digits at 4, and its milliseconds within the second
/// the first three fraction digits.
pub proof fn lemma_nmea_time_fields(b: Seq<u8>)
    ensures
        spec_parse_nmea_time(b) matches Some(t) ==> {
            &&& t < 86_400_000
            &&& t / 3_600_000 == decimal_value(b.subrange(0, 2))
            &&& (t / 60_000) % 60 == decimal_value(b.subrange(2, 4))
            &&& (t / 1000) % 60 == decimal_value(b.subrange(4, 6))
            &&& t % 1000 == (if b.len() > 6 { frac_value(b.skip(7), 1000) } else { 0 })
        },
{
    if spec_parse_nmea_time(b) is Some {
        lemma_all_digits_subrange(b.take(6), 0, 2);
        lemma_all_digits_subrange(b.take(6), 2, 4);
        lemma_all_digits_subrange(b.take(6), 4, 6);
        assert(b.take(6).subrange(0, 2) =~= b.subrange(0, 2));
        assert(b.take(6).subrange(2, 4) =~= b.subrange(2, 4));
        assert(b.take(6).subrange(4, 6) =~= b.subrange(4, 6));
        let h = decimal_value(b.subrange(0, 2));
        let m = decimal_value(b.subrange(2, 4));
        let s = decimal_value(b.subrange(4, 6));
        lemma_decimal_value_nonneg(b.subrange(0, 2));
        lemma_decimal_value_nonneg(b.subrange(2, 4));
        lemma_decimal_value_nonneg(b.subrange(4, 6));
        let ms: int = if b.len() > 6 { frac_value(b.skip(7), 1000) } else { 0 };
        if b.len() > 6 {
            lemma_frac_ms_below(b.skip(7));
        }
        let t: int = h * 3_600_000 + m * 60_000 + s * 1_000 + ms;
        assert(0 <= t < 86_400_000);
        assert(spec_parse_nmea_time(b) == Some(t as u32));
        vstd::arithmetic::div_mod::lemma_fundamental_div_mod_converse(
            t,
            3_600_000,
            h,
            m * 60_000 + s * 1_000 + ms,
        );
        vstd::arithmetic::div_mod::lemma_fundamental_div_mod_converse(
            t,
            60_000,
            h * 60 + m,
            s * 1_000 + ms,
        );
        vstd::arithmetic::div_mod::lemma_fundamental_div_mod_converse(h * 60 + m, 60, h, m);
        vstd::arithmetic::div_mod::lemma_fundamental_div_mod_converse(
            t,
            1000,
            h * 3600 + m * 60 + s,
            ms,
        );
        vstd::arithmetic::div_mod::lemma_fundamental_div_mod_converse(
            h * 3600 + m * 60 + s,
            60,
            h * 60 + m,
            s,
        );
    }
}

/// Parses an NMEA UTC time (`hhmmss` or `hhmmss.ss`) into milliseconds since midnight.
///
/// Fractional seconds beyond millisecond precision are truncated.
pub fn parse_nmea_time(bytes: &[u8]) -> (r: Option<u32>)
    ensures
        r == spec_parse_nmea_time(bytes@),
{
    if bytes.len() < 6 {
        return None;
    }
    let ghost b = bytes@;
    proof {
        if all_digits(b.take(6)) {
            lemma_all_digits_subrange(b.take(6), 0, 2);
            lemma_all_digits_subrange(b.take(6), 2, 4);
            lemma_all_digits_subrange(b.take(6), 4, 6);
            assert(b.take(6).subrange(0, 2) =~= b.subrange(0, 2));
            assert(b.take(6).subrange(2, 4) =~= b.subrange(2, 4));
            assert(b.take(6).subrange(4, 6) =~= b.subrange(4, 6));
        }
    }
    let hour = match parse_two_digits(&bytes[0..2]) {
        Some(v) => v,
        None => {
            assert(!all_digits(b.subrange(0, 2)));
            assert(!all_digits(b.take(6))) by {
                let i = choose|i: int| 0 <= i < 2 && !is_digit(#[trigger] b.subrange(0, 2)[i]);
                assert(b.take(6)[i] == b.subrange(0, 2)[i]);
            }
            return None;
        },
    };
    let minute = match parse_two_digits(&bytes[2..4]) {
        Some(v) => v,
        None => {
            assert(!all_digits(b.take(6))) by {
                let i = choose|i: int| 0 <= i < 2 && !is_digit(#[trigger] b.subrange(2, 4)[i]);
                assert(b.take(6)[i + 2] == b.subrange(2, 4)[i]);
            }
            return None;
        },
    };
    let second = match parse_two_digits(&bytes[4..6]) {
        Some(v) => v,
        None => {
            assert(!all_digits(b.take(6))) by {
                let i = choose|i: int| 0 <= i < 2 && !is_digit(#[trigger] b.subrange(4, 6)[i]);
                assert(b.take(6)[i + 4] == b.subrange(4, 6)[i]);
            }
            return None;
        },
    };
    proof {
        assert forall|i: int| 0 <= i < 6 implies is_digit(#[trigger] b.take(6)[i]) by {
            if i < 2 {
                assert(b.subrange(0, 2)[i] == b[i]);
            } else if i < 4 {
                assert(b.subrange(2, 4)[i - 2] == b[i]);
            } else {
                assert(b.subrange(4, 6)[i - 4] == b[i]);
            }
        }
        lemma_decimal_value_bound(b.subrange(0, 2));
        lemma_decimal_value_bound(b.subrange(2, 4));
        lemma_decimal_value_bound(b.subrange(4, 6));
        assert(pow10(2) == 100) by {
            reveal_with_fuel(pow10, 3);
        }
        assert(hour as int == decimal_value(b.subrange(0, 2)));
        assert(minute as int == decimal_value(b.subrange(2, 4)));
        assert(second as int == decimal_value(b.subrange(4, 6)));
    }
    if hour >= 24 || minute >= 60 || second >= 60 {
        return None;
    }
    let mut milliseconds: u32 = hour as u32 * 3_600_000 + minute as u32 * 60_000 + second as u32
        * 1_000;
    if bytes.len() > 6 {
        if bytes[6] != 46 {
            return None;
        }
        let fraction_ms = match parse_frac_run(bytes, 7, 1000) {
            Some(v) => v,
            None => {
                return None;
            },
        };
        milliseconds = milliseconds + fraction_ms;
        assert(milliseconds as int == hour * 3_600_000 + minute * 60_000 + second * 1_000
            + frac_value(b.skip(7), 1000));
    } else {
        assert(milliseconds as int == hour * 3_600_000 + minute * 60_000 + second * 1_000);
    }
    assert(all_digits(b.take(6)));
    Some(milliseconds)
}


/// `Some(true)` for a southern or western hemisphere letter, `Some(false)` for a northern or eastern one.
pub open spec fn hemisphere_is_negative(direction: u8) -> Option<bool> {
    if direction == 78 || direction == 69 {
        Some(false)
    } else if direction == 83 || direction == 87 {
        Some(true)
    } else {
        None
    }
}

/// What `parse_nmea_coordinate` returns: `ddmm.mmmm` or `dddmm.mmmm` with a hemisphere letter,
/// as degrees × 1e7, the minutes rounded to the nearest unit.
pub open spec fn spec_parse_nmea_coordinate(v: Seq<u8>, direction: u8) -> Option<i32> {
    let dp = first_dot(v);
    if v.len() == 0 || hemisphere_is_negative(direction) is None || dp >= v.len() || (dp != 4 && dp
        != 5) {
        None
    } else {
        let degrees = v.take(dp - 2);
        let minutes = v.subrange(dp - 2, dp);
        let fraction = v.skip(dp + 1);
        if !all_digits(degrees) || !all_digits(minutes) || !all_digits(fraction) || decimal_value(
            minutes,
        ) >= 60 {
            None
        } else {
            let minutes_x1e4 = decimal_value(minutes) * 10_000 + frac_value(fraction, 10_000);
            let magnitude = decimal_value(degrees) * 10_000_000 + (minutes_x1e4 * 50 + 1) / 3;
            if magnitude > i32::MAX {
                None
            } else if hemisphere_is_negative(direction) == Some(true) {
                Some((-magnitude) as i32)
            } else {
                Some(magnitude as i32)
            }
        }
    }
}

/// The hemisphere letter decides only the sign: `N` and `E` give the same non-negative value,
/// `S` and `W` its negation, and any other letter gives `None`.
pub proof fn lemma_coordinate_hemisphere(v: Seq<u8>, direction: u8)
    ensures
        spec_parse_nmea_coordinate(v, 78) == spec_parse_nmea_coordinate(v, 69),
        spec_parse_nmea_coordinate(v, 83) == spec_parse_nmea_coordinate(v, 87),
        spec_parse_nmea_coordinate(v, 78) is Some <==> spec_parse_nmea_coordinate(v, 83) is Some,
        spec_parse_nmea_coordinate(v, 78) matches Some(x) ==> x >= 0
            && spec_parse_nmea_coordinate(v, 83)->0 == -x,
        direction != 78 && direction != 69 && direction != 83 && direction != 87
            ==> spec_parse_nmea_coordinate(v, direction) is None,
{
    let dp = first_dot(v);
    if v.len() > 0 && dp < v.len() && (dp == 4 || dp == 5) && all_digits(v.take(dp - 2))
        && all_digits(v.subrange(dp - 2, dp)) && all_digits(v.skip(dp + 1)) {
        lemma_decimal_value_nonneg(v.take(dp - 2));
        lemma_decimal_value_nonneg(v.subrange(dp - 2, dp));
        lemma_frac_value_nonneg(v.skip(dp + 1), 10_000);
    }
}

/// The value of a coordinate `ddmm.mmmm` / `dddmm.mmmm` (north or east): its whole degrees are
/// the digits before the two minute digits, and the rest is the minutes converted to degrees
/// × 1e7 and rounded to the nearest unit (three times it is within 1 of fifty times the
/// minutes × 1e4).
pub proof fn lemma_coordinate_value(v: Seq<u8>)
    ensures
        spec_parse_nmea_coordinate(v, 78) matches Some(x) ==> {
            let dp = first_dot(v);
            let degrees = decimal_value(v.take(dp - 2));
            let minutes_x1e4 = decimal_value(v.subrange(dp - 2, dp)) * 10_000 + frac_value(
                v.skip(dp + 1),
                10_000,
            );
            let rest = x - degrees * 10_000_000;
            &&& 0 <= minutes_x1e4 < 600_000
            &&& x / 10_000_000 == degrees
            &&& 0 <= rest < 10_000_000
            &&& -1 <= 3 * rest - 50 * minutes_x1e4 <= 1
        },
{
    if spec_parse_nmea_coordinate(v, 78) is Some {
        let dp = first_dot(v);
        let dg = v.take(dp - 2);
        let mn = v.subrange(dp - 2, dp);
        let fr = v.skip(dp + 1);
        lemma_decimal_value_nonneg(dg);
        lemma_decimal_value_nonneg(mn);
        reveal_with_fuel(pow10, 5);
        lemma_frac_below_power(fr, 4);
        let m: int = decimal_value(mn) * 10_000 + frac_value(fr, 10_000);
        let r: int = (m * 50 + 1) / 3;
        assert(0 <= m < 600_000);
        assert(3 * r <= m * 50 + 1 < 3 * r + 3) by {
            vstd::arithmetic::div_mod::lemma_fundamental_div_mod(m * 50 + 1, 3);
        }
        let deg = decimal_value(dg);
        vstd::arithmetic::div_mod::lemma_fundamental_div_mod_converse(
            deg * 10_000_000 + r,
            10_000_000,
            deg,
            r,
        );
    }
}

/// Parses an NMEA latitude/longitude coordinate.
///
/// NMEA coordinates are represented as `ddmm.mmmm` (latitude) or `dddmm.mmmm` (longitude);
/// `direction` must be `N`, `S`, `E`, or `W`.
/// The result is degrees × 1e7, rounded to the nearest unit.
pub fn parse_nmea_coordinate(value: &[u8], direction: u8) -> (r: Option<i32>)
    ensures
        r == spec_parse_nmea_coordinate(value@, direction),
{
    if value.len() == 0 {
        return None;
    }
    let negative = if direction == 78 || direction == 69 {
        false
    } else if direction == 83 || direction == 87 {
        true
    } else {
        return None;
    };
    let ghost v = value@;
    let mut decimal_pos: usize = 0;
    while decimal_pos < value.len() && value[decimal_pos] != 46
        invariant
            0 <= decimal_pos <= value.len(),
            v == value@,
            forall|j: int| 0 <= j < decimal_pos ==> v[j] != 46,
        decreases value.len() - decimal_pos,
    {
        decimal_pos = decimal_pos + 1;
    }
    proof {
        lemma_first_dot_at(v, decimal_pos as int);
    }
    if decimal_pos == value.len() {
        return None;
    }
    if decimal_pos != 4 && decimal_pos != 5 {
        return None;
    }
    let minute_start = decimal_pos - 2;
    assert(v.subrange(0, minute_start as int) =~= v.take(minute_start as int));
    let degrees = match parse_digit_run(value, 0, minute_start) {
        Some(d) => d,
        None => {
            return None;
        },
    };
    let minutes = match parse_digit_run(value, minute_start, decimal_pos) {
        Some(m) => m,
        None => {
            return None;
        },
    };
    proof {
        lemma_decimal_value_bound(v.take(minute_start as int));
        lemma_decimal_value_bound(v.subrange(minute_start as int, decimal_pos as int));
        assert(pow10(3) == 1000) by {
            reveal_with_fuel(pow10, 4);
        }
        assert(pow10(2) == 100) by {
            reveal_with_fuel(pow10, 3);
        }
        lemma_pow10_monotone(minute_start as nat, 3);
    }
    if minutes >= 60 {
        return None;
    }
    let fractional = match parse_frac_run(value, decimal_pos + 1, 10_000) {
        Some(f) => f,
        None => {
            return None;
        },
    };
    let minutes_x1e4: u64 = minutes as u64 * 10_000 + fractional as u64;
    let minute_degrees_x1e7: u64 = (minutes_x1e4 * 50 + 1) / 3;
    let result: u64 = degrees as u64 * 10_000_000 + minute_degrees_x1e7;
    if result > 2_147_483_647 {
        return None;
    }
    if negative {
        Some(-(result as i32))
    } else {
        Some(result as i32)
    }
}


/// The comma-separated fields of a sentence payload, in order; a payload without commas is one field,
/// and an empty field between two commas counts.
pub open spec fn nmea_fields(s: Seq<u8>) -> Seq<Seq<u8>>
    decreases s.len(),
{
    let c = first_index_of(s, 44);
    proof {
        lemma_first_index_after(s, 44, 0);
    }
    if c >= s.len() {
        seq![s]
    } else {
        seq![s.take(c)] + nmea_fields(s.skip(c + 1))
    }
}

/// What a field iterator holds: all fields of its payload and how many it has handed out.
pub struct NmeaFieldsView {
    pub fields: Seq<Seq<u8>>,
    pub index: nat,
}

/// The fields of a sentence payload, handed out one at a time.
pub struct NmeaFields<'a> {
    remainder: Option<&'a [u8]>,
    all_fields: Ghost<Seq<Seq<u8>>>,
    handed_out: Ghost<nat>,
}

impl<'a> View for NmeaFields<'a> {
    type V = NmeaFieldsView;

    closed spec fn view(&self) -> NmeaFieldsView {
        NmeaFieldsView { fields: self.all_fields@, index: self.handed_out@ }
    }
}

impl<'a> NmeaFields<'a> {
    #[verifier::type_invariant]
    spec fn wf(self) -> bool {
        match self.remainder {
            None => self.handed_out@ >= self.all_fields@.len(),
            Some(s) => nmea_fields(s@) == self.all_fields@.skip(self.handed_out@ as int)
                && self.handed_out@ < self.all_fields@.len(),
        }
    }

    pub fn new(payload: &'a [u8]) -> (r: Self)
        ensures
            r@.fields == nmea_fields(payload@),
            r@.index == 0,
    {
        let ghost f = nmea_fields(payload@);
        proof {
            lemma_first_index_after(payload@, 44, 0);
            reveal_with_fuel(nmea_fields, 1);
            assert(f.skip(0) =~= f);
        }
        NmeaFields { remainder: Some(payload), all_fields: Ghost(f), handed_out: Ghost(0) }
    }

    /// The next field, or `None` once every field has been handed out.
    /// Setting the remainder to `None` after the final field means that even an empty final field is returned once.
    pub fn next(&mut self) -> (r: Option<&'a [u8]>)
        ensures
            final(self)@.fields == old(self)@.fields,
            r is None <==> old(self)@.index >= old(self)@.fields.len(),
            r is None ==> final(self)@.index == old(self)@.index,
            r matches Some(x) ==> x@ == old(self)@.fields[old(self)@.index as int]
                && final(self)@.index == old(self)@.index + 1,
    {
        proof {
            use_type_invariant(&*self);
        }
        match self.remainder {
            None => None,
            Some(rem) => {
                let ghost all = self.all_fields@;
                let ghost idx = self.handed_out@;
                let mut comma_pos: usize = 0;
                while comma_pos < rem.len() && rem[comma_pos] != 44
                    invariant
                        0 <= comma_pos <= rem.len(),
                        forall|j: int| 0 <= j < comma_pos ==> rem@[j] != 44,
                    decreases rem.len() - comma_pos,
                {
                    comma_pos = comma_pos + 1;
                }
                proof {
                    lemma_first_index_at(rem@, 44, comma_pos as int);
                    assert(nmea_fields(rem@)[0] == all[idx as int]);
                }
                if comma_pos < rem.len() {
                    let field = &rem[0..comma_pos];
                    let rest = &rem[comma_pos + 1..rem.len()];
                    proof {
                        assert(rest@ =~= rem@.skip(comma_pos + 1));
                        assert(nmea_fields(rem@) == seq![rem@.take(comma_pos as int)] + nmea_fields(rest@));
                        assert(nmea_fields(rest@) =~= all.skip(idx as int + 1)) by {
                            assert(all.skip(idx as int + 1) =~= all.skip(idx as int).drop_first());
                            assert(nmea_fields(rem@).drop_first() =~= nmea_fields(rest@));
                        }
                        lemma_fields_nonempty(rest@);
                    }
                    *self = NmeaFields {
                        remainder: Some(rest),
                        all_fields: self.all_fields,
                        handed_out: Ghost(idx + 1),
                    };
                    Some(field)
                } else {
                    proof {
                        assert(nmea_fields(rem@) == seq![rem@]);
                        assert(all.skip(idx as int).len() == 1);
                        assert(rem@.take(comma_pos as int) =~= rem@);
                    }
                    *self = NmeaFields {
                        remainder: None,
                        all_fields: self.all_fields,
                        handed_out: Ghost(idx + 1),
                    };
                    Some(rem)
                }
            },
        }
    }
}

proof fn lemma_fields_nonempty(s: Seq<u8>)
    ensures
        nmea_fields(s).len() >= 1,
{
    lemma_first_index_after(s, 44, 0);
}

/// How many times `c` occurs in `s`.
pub open spec fn count_byte(s: Seq<u8>, c: u8) -> nat
    decreases s.len(),
{
    if s.len() == 0 {
        0
    } else {
        (if s[0] == c { 1nat } else { 0nat }) + count_byte(s.drop_first(), c)
    }
}

/// Fields joined with a comma between each two.
pub open spec fn join_fields(fields: Seq<Seq<u8>>) -> Seq<u8>
    decreases fields.len(),
{
    if fields.len() == 0 {
        Seq::empty()
    } else if fields.len() == 1 {
        fields[0]
    } else {
        fields[0] + seq![44u8] + join_fields(fields.drop_first())
    }
}

proof fn lemma_first_index_props(s: Seq<u8>, c: u8)
    ensures
        0 <= first_index_of(s, c) <= s.len(),
        forall|j: int| 0 <= j < first_index_of(s, c) ==> s[j] != c,
        first_index_of(s, c) < s.len() ==> s[first_index_of(s, c)] == c,
    decreases s.len(),
{
    if s.len() > 0 && s[0] != c {
        let t = s.drop_first();
        lemma_first_index_props(t, c);
        assert forall|j: int| 0 <= j < first_index_of(s, c) implies s[j] != c by {
            if j > 0 {
                assert(s[j] == t[j - 1]);
            }
        }
    }
}

proof fn lemma_count_skip(s: Seq<u8>, c: u8, k: int)
    requires
        0 <= k <= s.len(),
        forall|j: int| 0 <= j < k ==> s[j] != c,
    ensures
        count_byte(s, c) == count_byte(s.skip(k), c),
    decreases k,
{
    if k > 0 {
        let t = s.drop_first();
        assert forall|j: int| 0 <= j < k - 1 implies t[j] != c by {
            assert(t[j] == s[j + 1]);
        }
        lemma_count_skip(t, c, k - 1);
        assert(t.skip(k - 1) =~= s.skip(k));
    } else {
        assert(s.skip(0) =~= s);
    }
}

/// The fields of a payload with `k` commas are `k + 1` fields, none of which holds a comma,
/// and joined with commas they give back the payload (an empty field after a trailing comma
/// included).
pub proof fn lemma_nmea_fields_join(s: Seq<u8>)
    ensures
        join_fields(nmea_fields(s)) == s,
        nmea_fields(s).len() == count_byte(s, 44) + 1,
        forall|i: int, j: int|
            0 <= i < nmea_fields(s).len() && 0 <= j < nmea_fields(s)[i].len()
                ==> #[trigger] nmea_fields(s)[i][j] != 44,
    decreases s.len(),
{
    let c = first_index_of(s, 44);
    lemma_first_index_props(s, 44);
    lemma_first_index_after(s, 44, 0);
    let f = nmea_fields(s);
    if c >= s.len() {
        assert(f == seq![s]);
        lemma_count_skip(s, 44, s.len() as int);
        assert(s.skip(s.len() as int) =~= Seq::<u8>::empty());
    } else {
        let r = s.skip(c + 1);
        lemma_nmea_fields_join(r);
        lemma_fields_nonempty(r);
        let fr = nmea_fields(r);
        assert(f == seq![s.take(c)] + fr);
        assert(f.drop_first() =~= fr);
        assert(join_fields(f) == s.take(c) + seq![44u8] + join_fields(fr));
        assert(s.take(c) + seq![44u8] + r =~= s);
        lemma_count_skip(s, 44, c);
        assert(s.skip(c).drop_first() =~= r);
        assert forall|i: int, j: int|
            0 <= i < f.len() && 0 <= j < f[i].len() implies #[trigger] f[i][j] != 44 by {
            if i > 0 {
                assert(f[i] == fr[i - 1]);
            }
        }
    }
}

/// A position: latitude and longitude in degrees × 1e7, altitude in cm.
#[derive(Clone, Copy, Debug, PartialEq, Eq, Structural)]
pub struct GpsPosition {
    pub latitude_degrees_x1e7: i32,
    pub longitude_degrees_x1e7: i32,
    pub altitude_cm: i32,
}

/// What a GGA sentence reports: time of day, position, fix quality, satellites tracked,
/// horizontal dilution of precision × 10 and geoid separation in cm.
#[derive(Clone, Copy, Debug, PartialEq, Eq, Structural)]
pub struct GgaRecord {
    pub time_of_day_ms: u32,
    pub position: GpsPosition,
    pub fix: u8,
    pub satellite_count: u8,
    pub dilution_of_precision_positional: i16,
    pub geoid_separation_cm: i32,
}

/// What `parse_gga_record` returns: a GGA sentence that `NmeaGga::parse` accepts and whose
/// UTC time field is a valid time of day.
pub open spec fn spec_parse_gga_record(record: Seq<u8>) -> Option<GgaRecord> {
    match spec_parse_gga(record) {
        Some(g) => match spec_parse_nmea_time(nmea_fields(record)[1]) {
            Some(t) => Some(
                GgaRecord {
                    time_of_day_ms: t,
                    position: GpsPosition {
                        latitude_degrees_x1e7: g.latitude_degrees_x1e7,
                        longitude_degrees_x1e7: g.longitude_degrees_x1e7,
                        altitude_cm: g.altitude_cm,
                    },
                    fix: g.fix,
                    satellite_count: g.satellite_count,
                    dilution_of_precision_positional: g.hdop_x100,
                    geoid_separation_cm: g.geoid_separation_cm,
                },
            ),
            None => None,
        },
        None => None,
    }
}

/// Where each value of a GGA record comes from: the time of day from field 1, the latitude
/// from field 2 with the hemisphere of field 3 (south negative), the longitude from fields 4 and
/// 5 (west negative), the fix quality and satellite count from fields 6 and 7, HDOP from field
/// 8, and the altitude and geoid separation from fields 9 and 11.
pub proof fn lemma_gga_record_fields(record: Seq<u8>)
    ensures
        spec_parse_gga_record(record) matches Some(r) ==> {
            let f = nmea_fields(record);
            &&& f.len() >= 13
            &&& r.time_of_day_ms == spec_parse_nmea_time(f[1])->0
            &&& r.position.latitude_degrees_x1e7 == spec_parse_nmea_coordinate(f[2], f[3][0])->0
            &&& r.position.longitude_degrees_x1e7 == spec_parse_nmea_coordinate(f[4], f[5][0])->0
            &&& (f[3][0] == 83u8 ==> r.position.latitude_degrees_x1e7 <= 0)
            &&& (f[3][0] == 78u8 ==> r.position.latitude_degrees_x1e7 >= 0)
            &&& (f[5][0] == 87u8 ==> r.position.longitude_degrees_x1e7 <= 0)
            &&& (f[5][0] == 69u8 ==> r.position.longitude_degrees_x1e7 >= 0)
            &&& r.fix == spec_parse_int(f[6])->0
            &&& r.satellite_count == spec_parse_int(f[7])->0
            &&& r.dilution_of_precision_positional == spec_parse_fixed_point(f[8], 10)->0
            &&& r.position.altitude_cm == spec_parse_fixed_point(f[9], 100)->0
            &&& r.geoid_separation_cm == spec_parse_fixed_point(f[11], 100)->0
        },
{
    lemma_gga_fields(record);
}

/// Parses the payload of a GGA sentence, including its UTC time of day.
///
/// Fields: 0 talker and type, 1 UTC time, 2/3 latitude and N/S, 4/5 longitude and E/W,
/// 6 fix quality, 7 satellites tracked, 8 HDOP, 9/10 altitude and units,
/// 11/12 geoid separation and units, 13 DGPS age, 14 DGPS station (the last two unused).
pub fn parse_gga_record(record: &[u8]) -> (r: Option<GgaRecord>)
    ensures
        r == spec_parse_gga_record(record@),
{
    let gga = match NmeaGga::parse(record) {
        Some(g) => g,
        None => {
            return None;
        },
    };
    let mut fields = NmeaFields::new(record);
    let _talker_id = fields.next();
    let time = match fields.next() {
        Some(t) => t,
        None => {
            return None;
        },
    };
    let time_of_day_ms = match parse_nmea_time(time) {
        Some(t) => t,
        None => {
            return None;
        },
    };
    Some(
        GgaRecord {
            time_of_day_ms,
            position: GpsPosition {
                latitude_degrees_x1e7: gga.latitude_degrees_x1e7,
                longitude_degrees_x1e7: gga.longitude_degrees_x1e7,
                altitude_cm: gga.altitude_cm,
            },
            fix: gga.fix,
            satellite_count: gga.satellite_count,
            dilution_of_precision_positional: gga.hdop_x100,
            geoid_separation_cm: gga.geoid_separation_cm,
        },
    )
}

} // verus!
