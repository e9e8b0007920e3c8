//! Biphase decoder for the Philips RC-5 protocol.
//!
//! An RC-5 frame is 14 bits, each one symbol period of two half-periods of
//! 889 µs; the level transition in the middle of the period carries the bit
//! value. The decoder reconstructs a half-period clock from the measured
//! interval between transitions (one or two half-periods) and samples the
//! edge polarity at every even clock count: a rising edge there is a one.
//! The first rising edge out of idle is the middle of the first start bit.

use vstd::prelude::*;

use crate::classify::{lemma_ticks_le_us, scale_us_to_ticks, span_of, PulseSpan};
use crate::decoder::{DecodedCommand, DecoderState, ErrorKind};
use crate::protocol::ProtocolId;

verus! {

/// Accepted windows for one and two half-periods.
#[derive(Clone, Copy, PartialEq, Eq, Structural, Debug)]
pub struct Rc5Spans {
    pub one_unit: PulseSpan,
    pub two_units: PulseSpan,
}

/// The windows at `samplerate`: 889 µs and 1778 µs scaled into ticks, with
/// 12% and 10% tolerance.
pub open spec fn rc5_spans(samplerate: u32) -> Rc5Spans {
    Rc5Spans {
        one_unit: span_of(((889 * samplerate) / 1_000_000) as u32, 12),
        two_units: span_of(((1778 * samplerate) / 1_000_000) as u32, 10),
    }
}

/// How many half-periods a measured interval spans, first match first.
pub open spec fn rc5_units(spans: Rc5Spans, d: u32) -> Option<u32> {
    if spans.one_unit.spec_contains(d) {
        Some(1u32)
    } else if spans.two_units.spec_contains(d) {
        Some(2u32)
    } else {
        None
    }
}

impl Rc5Spans {
    pub fn units(&self, d: u32) -> (r: Option<u32>)
        ensures
            r == rc5_units(*self, d),
    {
        if self.one_unit.contains(d) {
            Some(1u32)
        } else if self.two_units.contains(d) {
            Some(2u32)
        } else {
            None
        }
    }
}

/// Internal state of an RC-5 decoder.
#[derive(Clone, Copy, PartialEq, Eq, Structural, Debug)]
pub enum Rc5State {
    /// Waiting for the first rising edge.
    Idle,
    /// Receiving, next bit position `n`.
    Data(u8),
    /// A full frame was received.
    Done,
    /// The frame was abandoned.
    Failed(ErrorKind),
}

/// Decoder for the RC-5 protocol.
#[derive(Clone, Copy, PartialEq, Eq, Structural, Debug)]
pub struct Rc5Decoder {
    pub spans: Rc5Spans,
    pub state: Rc5State,
    /// Bits received so far, start bit at position 13.
    pub bitbuf: u16,
    /// Reconstructed half-period count since the frame began.
    pub clock: u32,
}

/// The transition an RC-5 decoder makes on one edge event.
pub open spec fn rc5_step(pre: Rc5Decoder, rising: bool, dt: u32) -> Rc5Decoder {
    match pre.state {
        Rc5State::Idle => if rising {
            Rc5Decoder { state: Rc5State::Data(12), bitbuf: 1u16 << 13, clock: 0, ..pre }
        } else {
            pre
        },
        Rc5State::Data(b) => match rc5_units(pre.spans, dt) {
            Option::None => (Rc5Decoder {
                state: Rc5State::Failed(ErrorKind::OutOfTolerance),
                ..pre
            }),
            Option::Some(units) => {
                let clock = pre.clock.wrapping_add(units);
                if clock % 2 == 0 {
                    let bits = if rising {
                        pre.bitbuf | (1u16 << b)
                    } else {
                        pre.bitbuf
                    };
                    if b == 0 {
                        Rc5Decoder { state: Rc5State::Done, bitbuf: bits, clock, ..pre }
                    } else {
                        Rc5Decoder {
                            state: Rc5State::Data((b - 1) as u8),
                            bitbuf: bits,
                            clock,
                            ..pre
                        }
                    }
                } else {
                    Rc5Decoder { clock, ..pre }
                }
            },
        },
        Rc5State::Done => pre,
        Rc5State::Failed(_) => pre,
    }
}

/// Field extraction: five address bits above six command bits, the toggle
/// bit reported as the repeat flag.
pub open spec fn rc5_unpack(bits: u16) -> DecodedCommand {
    DecodedCommand {
        protocol: ProtocolId::Rc5,
        address: ((bits >> 6) & 0x1F) as u16,
        data: (bits & 0x3F) as u16,
        repeat: bits & (1u16 << 11) != 0,
    }
}

/// A freshly created decoder at `samplerate`.
pub open spec fn rc5_decoder_init(samplerate: u32) -> Rc5Decoder {
    Rc5Decoder { spans: rc5_spans(samplerate), state: Rc5State::Idle, bitbuf: 0, clock: 0 }
}

/// The 14 bits of a frame: two start bits, the toggle bit, five address
/// bits, six command bits.
pub open spec fn rc5_pack(addr: u8, cmd: u8, toggle: bool) -> u16 {
    (0b11u16 << 12) | ((if toggle {
        1u16
    } else {
        0u16
    }) << 11) | ((addr as u16) << 6) | (cmd as u16)
}

/// A decoder run over a whole sequence of edge events.
pub open spec fn rc5_run(pre: Rc5Decoder, events: Seq<(bool, u32)>) -> Rc5Decoder
    decreases events.len(),
{
    if events.len() == 0 {
        pre
    } else {
        rc5_step(rc5_run(pre, events.drop_last()), events.last().0, events.last().1)
    }
}

/// The edge events of frame bit `i` at 40 kHz, one half-period being 35
/// ticks. When bit `i` equals the bit before it the signal also changes at
/// the bit boundary; otherwise the two equal half-periods merge and only
/// the mid-bit transition remains.
pub open spec fn rc5_bit_events(bits: u16, i: int) -> Seq<(bool, u32)> {
    let prev = (bits >> ((i + 1) as u16)) & 1;
    let cur = (bits >> (i as u16)) & 1;
    if cur == prev {
        seq![(cur == 0, 35u32), (cur == 1, 35u32)]
    } else {
        seq![(cur == 1, 70u32)]
    }
}

/// The edge events of a frame from bit 12 down to bit `i`, opened by the
/// rising edge out of idle in the middle of the first start bit.
pub open spec fn rc5_frame_prefix(bits: u16, i: int) -> Seq<(bool, u32)>
    decreases 13 - i,
{
    if i >= 13 {
        seq![(true, 1_000_000u32)]
    } else {
        rc5_frame_prefix(bits, i + 1) + rc5_bit_events(bits, i)
    }
}

/// The edge events of a whole frame at 40 kHz.
pub open spec fn rc5_frame_events(bits: u16) -> Seq<(bool, u32)> {
    rc5_frame_prefix(bits, 0)
}

/// Unfold one step of a run.
proof fn lemma_rc5_run_push(pre: Rc5Decoder, s: Seq<(bool, u32)>, e: (bool, u32))
    ensures
        rc5_run(pre, s + seq![e]) == rc5_step(rc5_run(pre, s), e.0, e.1),
{
    assert((s + seq![e]).drop_last() =~= s);
    assert((s + seq![e]).last() == e);
}

/// After the start edge and the bits down through bit `i`, the decoder is
/// waiting for bit `i - 1` (done, when `i` is 0) and holds exactly the
/// frame's bits from position `i` up.
proof fn lemma_rc5_receives_bits(bits: u16, i: int)
    requires
        0 <= i <= 12,
        bits >> 13 == 1,
    ensures
        ({
            let d = rc5_run(rc5_decoder_init(40_000), rc5_frame_prefix(bits, i));
            &&& d.state == (if i == 0 {
                Rc5State::Done
            } else {
                Rc5State::Data((i - 1) as u8)
            })
            &&& d.bitbuf == bits & (0xFFFFu16 << (i as u16))
            &&& d.clock % 2 == 0
            &&& d.spans == rc5_spans(40_000)
        }),
    decreases 13 - i,
{
    let init = rc5_decoder_init(40_000);
    let pre = if i == 12 {
        let d0 = rc5_run(init, rc5_frame_prefix(bits, 13));
        assert(rc5_frame_prefix(bits, 13) =~= Seq::empty() + seq![(true, 1_000_000u32)]);
        lemma_rc5_run_push(init, Seq::empty(), (true, 1_000_000u32));
        assert(rc5_run(init, Seq::<(bool, u32)>::empty()) == init);
        assert(d0 == rc5_step(init, true, 1_000_000));
        let b0 = d0.bitbuf;
        assert(b0 == bits & (0xFFFFu16 << 13)) by (bit_vector)
            requires
                b0 == 1u16 << 13,
                bits >> 13 == 1,
        ;
        d0
    } else {
        lemma_rc5_receives_bits(bits, i + 1);
        rc5_run(init, rc5_frame_prefix(bits, i + 1))
    };
    // `pre` is waiting for bit `i` with the higher bits in hand.
    assert(pre.state == Rc5State::Data(i as u8));
    assert(pre.bitbuf == bits & (0xFFFFu16 << ((i + 1) as u16)));

    let ii = i as u16;
    assert(((bits >> ii) & 1 == 1) ==> ((bits & (0xFFFFu16 << (ii + 1))) | (1u16 << ii)) == (
    bits & (0xFFFFu16 << ii))) by (bit_vector)
        requires
            ii < 13,
    ;
    assert(((bits >> ii) & 1 != 1) ==> (bits & (0xFFFFu16 << (ii + 1))) == (bits & (0xFFFFu16
        << ii))) by (bit_vector)
        requires
            ii < 13,
    ;

    let ev = rc5_bit_events(bits, i);
    let prev = (bits >> ((i + 1) as u16)) & 1;
    let cur = (bits >> (i as u16)) & 1;
    if cur == prev {
        assert(rc5_frame_prefix(bits, i) =~= (rc5_frame_prefix(bits, i + 1) + seq![ev[0]])
            + seq![ev[1]]);
        lemma_rc5_run_push(init, rc5_frame_prefix(bits, i + 1), ev[0]);
        lemma_rc5_run_push(init, rc5_frame_prefix(bits, i + 1) + seq![ev[0]], ev[1]);
    } else {
        assert(rc5_frame_prefix(bits, i) =~= rc5_frame_prefix(bits, i + 1) + seq![ev[0]]);
        lemma_rc5_run_push(init, rc5_frame_prefix(bits, i + 1), ev[0]);
    }
}

/// Round trip: a frame encoded for any address, command and toggle decodes,
/// at 40 kHz, to exactly that address and command, the toggle reported as
/// the repeat flag. This is the completing half of cross-protocol
/// independence: an RC-5 frame always brings the RC-5 decoder to done.
pub proof fn lemma_rc5_round_trip(addr: u8, cmd: u8, toggle: bool)
    requires
        addr < 32,
        cmd < 64,
    ensures
        ({
            let post = rc5_run(
                rc5_decoder_init(40_000),
                rc5_frame_events(rc5_pack(addr, cmd, toggle)),
            );
            &&& post.state is Done
            &&& post.spec_command() == Some(
                DecodedCommand {
                    protocol: ProtocolId::Rc5,
                    address: addr as u16,
                    data: cmd as u16,
                    repeat: toggle,
                },
            )
        }),
{
    let a = addr as u16;
    let c = cmd as u16;
    let t: u16 = if toggle {
        1
    } else {
        0
    };
    let bits = rc5_pack(addr, cmd, toggle);
    assert(bits == (0b11u16 << 12) | (t << 11) | (a << 6) | c);
    assert(bits >> 13 == 1) by (bit_vector)
        requires
            a < 32,
            c < 64,
            t <= 1,
            bits == (0b11u16 << 12) | (t << 11) | (a << 6) | c,
    ;
    lemma_rc5_receives_bits(bits, 0);
    assert(bits & (0xFFFFu16 << 0) == bits) by (bit_vector);
    assert((bits >> 6) & 0x1F == a && bits & 0x3F == c && ((bits & (1u16 << 11) != 0) <==> t
        == 1)) by (bit_vector)
        requires
            a < 32,
            c < 64,
            t <= 1,
            bits == (0b11u16 << 12) | (t << 11) | (a << 6) | c,
    ;
}

/// Recovery after an abandoned frame: an RC-5 decoder keeps nothing across
/// a reset, so a re-armed decoder is exactly a fresh one.
pub proof fn lemma_rc5_reset_is_fresh(d: Rc5Decoder, samplerate: u32)
    requires
        d.spans == rc5_spans(samplerate),
    ensures
        d.reset_state() == rc5_decoder_init(samplerate),
{
}

/// One full dispatcher round on an RC-5 decoder: step on the event, collect
/// the command when the frame is done, and re-arm after done or error.
#[verifier::opaque]
pub open spec fn rc5_event_total(pre: Rc5Decoder, rising: bool, dt: u32) -> (Rc5Decoder, Option<
    DecodedCommand,
>) {
    let stepped = rc5_step(pre, rising, dt);
    match stepped.spec_state() {
        DecoderState::Done => (stepped.reset_state(), stepped.spec_command()),
        DecoderState::Error(_) => (stepped.reset_state(), None),
        _ => (stepped, None),
    }
}

impl Rc5Decoder {
    /// The bit position never runs past the frame.
    pub open spec fn wf(self) -> bool {
        self.state matches Rc5State::Data(b) ==> b <= 12
    }

    /// The four-state shape this decoder shows the dispatcher.
    pub open spec fn spec_state(self) -> DecoderState {
        match self.state {
            Rc5State::Idle => DecoderState::Idle,
            Rc5State::Data(_) => DecoderState::Receiving,
            Rc5State::Done => DecoderState::Done,
            Rc5State::Failed(e) => DecoderState::Error(e),
        }
    }

    /// The command this decoder reports in its current state.
    pub open spec fn spec_command(self) -> Option<DecodedCommand> {
        if self.state is Done {
            Some(rc5_unpack(self.bitbuf))
        } else {
            None
        }
    }

    /// The state reached by an explicit reset.
    pub open spec fn reset_state(self) -> Rc5Decoder {
        Rc5Decoder { state: Rc5State::Idle, bitbuf: 0, clock: 0, ..self }
    }

    /// Create a decoder at `samplerate` ticks per second.
    pub fn new(samplerate: u32) -> (r: Rc5Decoder)
        requires
            samplerate <= 1_000_000,
        ensures
            r == rc5_decoder_init(samplerate),
            r.wf(),
    {
        proof {
            lemma_ticks_le_us(889, samplerate);
            lemma_ticks_le_us(1778, samplerate);
        }
        let spans = Rc5Spans {
            one_unit: PulseSpan::new(scale_us_to_ticks(889, samplerate), 12),
            two_units: PulseSpan::new(scale_us_to_ticks(1778, samplerate), 10),
        };
        Rc5Decoder { spans, state: Rc5State::Idle, bitbuf: 0, clock: 0 }
    }

    /// Feed one edge event.
    pub fn event(&mut self, rising: bool, dt: u32) -> (r: DecoderState)
        requires
            old(self).wf(),
        ensures
            *final(self) == rc5_step(*old(self), rising, dt),
            final(self).wf(),
            r == final(self).spec_state(),
    {
        match self.state {
            Rc5State::Idle => {
                if rising {
                    self.bitbuf = 1u16 << 13;
                    self.clock = 0;
                    self.state = Rc5State::Data(12);
                }
            },
            Rc5State::Data(b) => match self.spans.units(dt) {
                Option::None => {
                    self.state = Rc5State::Failed(ErrorKind::OutOfTolerance);
                },
                Option::Some(units) => {
                    let clock = self.clock.wrapping_add(units);
                    self.clock = clock;
                    if clock % 2 == 0 {
                        if rising {
                            self.bitbuf = self.bitbuf | (1u16 << b);
                        }
                        if b == 0 {
                            self.state = Rc5State::Done;
                        } else {
                            self.state = Rc5State::Data(b - 1);
                        }
                    }
                },
            },
            Rc5State::Done => {},
            Rc5State::Failed(_) => {},
        }
        self.state_shape()
    }

    /// The externally visible state.
    pub fn state_shape(&self) -> (r: DecoderState)
        ensures
            r == self.spec_state(),
    {
        match self.state {
            Rc5State::Idle => DecoderState::Idle,
            Rc5State::Data(_) => DecoderState::Receiving,
            Rc5State::Done => DecoderState::Done,
            Rc5State::Failed(e) => DecoderState::Error(e),
        }
    }

    /// The decoded command, if the decoder is done.
    pub fn command(&self) -> (r: Option<DecodedCommand>)
        ensures
            r == self.spec_command(),
    {
        match self.state {
            Rc5State::Done => {
                let bits = self.bitbuf;
                proof {
                    assert((bits >> 6) & 0x1F <= 0xFFFF && bits & 0x3F <= 0xFFFF)
                        by (bit_vector);
                }
                Some(DecodedCommand {
                    protocol: ProtocolId::Rc5,
                    address: ((bits >> 6) & 0x1F) as u16,
                    data: (bits & 0x3F) as u16,
                    repeat: bits & (1u16 << 11) != 0,
                })
            },
            _ => None,
        }
    }

    /// Re-arm for the next frame.
    pub fn reset(&mut self)
        ensures
            *final(self) == old(self).reset_state(),
            final(self).wf(),
    {
        self.state = Rc5State::Idle;
        self.bitbuf = 0;
        self.clock = 0;
    }

    /// Feed one edge event, hand out a decoded command if the frame is
    /// done, and re-arm after done or error.
    pub fn event_total(&mut self, rising: bool, dt: u32) -> (r: Option<DecodedCommand>)
        requires
            old(self).wf(),
        ensures
            *final(self) == rc5_event_total(*old(self), rising, dt).0,
            r == rc5_event_total(*old(self), rising, dt).1,
            final(self).wf(),
    {
        proof {
            reveal(rc5_event_total);
        }
        let st = self.event(rising, dt);
        match st {
            DecoderState::Done => {
                let c = self.command();
                self.reset();
                c
            },
            DecoderState::Error(_) => {
                self.reset();
                None
            },
            _ => None,
        }
    }
}

} // verus!
