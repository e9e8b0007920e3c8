//! Biphase decoder for the Philips RC-6 protocol (mode 0).
//!
//! An RC-6 frame opens with a leader of six time units of 444 µs and a
//! two-unit pause, then four header bits, a double-width trailer (toggle)
//! bit, and sixteen data bits, all Manchester coded with inverted polarity
//! relative to RC-5: a falling edge at a bit boundary is a one. The decoder
//! reconstructs a time-unit clock from the measured interval between
//! transitions (one to six units) and samples at every odd clock count.

use vstd::prelude::*;

use crate::classify::{lemma_ticks_le_us, scale_us_to_ticks, span_of, PulseSpan};
use crate::decoder::{DecodedCommand, DecoderState, ErrorKind};
use crate::protocol::ProtocolId;

verus! {

/// Accepted windows for one to six time units.
#[derive(Clone, Copy, PartialEq, Eq, Structural, Debug)]
pub struct Rc6Spans {
    pub units1: PulseSpan,
    pub units2: PulseSpan,
    pub units3: PulseSpan,
    pub units4: PulseSpan,
    pub units5: PulseSpan,
    pub units6: PulseSpan,
}

/// The windows at `samplerate`: multiples of 444 µs scaled into ticks, each
/// with 12% tolerance.
pub open spec fn rc6_spans(samplerate: u32) -> Rc6Spans {
    Rc6Spans {
        units1: span_of(((444 * samplerate) / 1_000_000) as u32, 12),
        units2: span_of(((888 * samplerate) / 1_000_000) as u32, 12),
        units3: span_of(((1332 * samplerate) / 1_000_000) as u32, 12),
        units4: span_of(((1776 * samplerate) / 1_000_000) as u32, 12),
        units5: span_of(((2220 * samplerate) / 1_000_000) as u32, 12),
        units6: span_of(((2664 * samplerate) / 1_000_000) as u32, 12),
    }
}

/// How many time units a measured interval spans, first match first.
pub open spec fn rc6_units(spans: Rc6Spans, d: u32) -> Option<u32> {
    if spans.units1.spec_contains(d) {
        Some(1u32)
    } else if spans.units2.spec_contains(d) {
        Some(2u32)
    } else if spans.units3.spec_contains(d) {
        Some(3u32)
    } else if spans.units4.spec_contains(d) {
        Some(4u32)
    } else if spans.units5.spec_contains(d) {
        Some(5u32)
    } else if spans.units6.spec_contains(d) {
        Some(6u32)
    } else {
        None
    }
}

impl Rc6Spans {
    pub fn units(&self, d: u32) -> (r: Option<u32>)
        ensures
            r == rc6_units(*self, d),
    {
        if self.units1.contains(d) {
            Some(1u32)
        } else if self.units2.contains(d) {
            Some(2u32)
        } else if self.units3.contains(d) {
            Some(3u32)
        } else if self.units4.contains(d) {
            Some(4u32)
        } else if self.units5.contains(d) {
            Some(5u32)
        } else if self.units6.contains(d) {
            Some(6u32)
        } else {
            None
        }
    }
}

/// Internal state of an RC-6 decoder.
#[derive(Clone, Copy, PartialEq, Eq, Structural, Debug)]
pub enum Rc6State {
    /// Waiting for the first rising edge.
    Idle,
    /// Inside the six-unit leader mark.
    Leading,
    /// Inside the two-unit leader pause.
    LeadingPaus,
    /// Receiving header bit `n`.
    HeaderData(u8),
    /// Inside the double-width trailer bit.
    Trailing,
    /// Receiving data bit `n`.
    Data(u8),
    /// A full frame was received.
    Done,
    /// The frame was abandoned.
    Failed(ErrorKind),
}

/// Decoder for the RC-6 protocol.
#[derive(Clone, Copy, PartialEq, Eq, Structural, Debug)]
pub struct Rc6Decoder {
    pub spans: Rc6Spans,
    pub state: Rc6State,
    /// Data bits received so far.
    pub data: u16,
    /// Header bits received so far.
    pub headerdata: u16,
    /// The trailer (toggle) bit.
    pub toggle: bool,
    /// Reconstructed time-unit count since the frame began.
    pub clock: u32,
}

/// The transition an RC-6 decoder makes on one edge event.
pub open spec fn rc6_step(pre: Rc6Decoder, rising: bool, dt: u32) -> Rc6Decoder {
    let units = rc6_units(pre.spans, dt);
    match pre.state {
        Rc6State::Idle => if rising {
            Rc6Decoder { state: Rc6State::Leading, clock: 0, ..pre }
        } else {
            pre
        },
        Rc6State::Leading => if !rising && units == Some(6u32) {
            Rc6Decoder { state: Rc6State::LeadingPaus, clock: pre.clock.wrapping_add(6), ..pre }
        } else {
            Rc6Decoder { state: Rc6State::Idle, ..pre }
        },
        Rc6State::LeadingPaus => if rising && units == Some(2u32) {
            Rc6Decoder { state: Rc6State::HeaderData(3), clock: pre.clock.wrapping_add(2), ..pre }
        } else {
            Rc6Decoder { state: Rc6State::Idle, ..pre }
        },
        Rc6State::HeaderData(n) => match units {
            Option::None => (Rc6Decoder { state: Rc6State::Idle, ..pre }),
            Option::Some(u) => {
                let clock = pre.clock.wrapping_add(u);
                if clock % 2 == 1 {
                    let hd = if rising {
                        pre.headerdata
                    } else {
                        pre.headerdata | (1u16 << n)
                    };
                    if n == 0 {
                        Rc6Decoder { state: Rc6State::Trailing, headerdata: hd, clock, ..pre }
                    } else {
                        Rc6Decoder {
                            state: Rc6State::HeaderData((n - 1) as u8),
                            headerdata: hd,
                            clock,
                            ..pre
                        }
                    }
                } else {
                    Rc6Decoder { clock, ..pre }
                }
            },
        },
        Rc6State::Trailing => if !rising && units == Some(3u32) {
            Rc6Decoder {
                state: Rc6State::Data(15),
                toggle: true,
                clock: pre.clock.wrapping_add(3),
                ..pre
            }
        } else if rising && units == Some(2u32) {
            Rc6Decoder {
                state: Rc6State::Data(15),
                toggle: false,
                clock: pre.clock.wrapping_add(2),
                ..pre
            }
        } else if !rising && units == Some(1u32) {
            Rc6Decoder { clock: pre.clock.wrapping_add(1), ..pre }
        } else {
            Rc6Decoder { state: Rc6State::Idle, ..pre }
        },
        Rc6State::Data(n) => match units {
            Option::None => (Rc6Decoder {
                state: Rc6State::Failed(ErrorKind::OutOfTolerance),
                ..pre
            }),
            Option::Some(u) => {
                let clock = pre.clock.wrapping_add(u);
                if clock % 2 == 1 {
                    let bits = if rising {
                        pre.data
                    } else {
                        pre.data | (1u16 << n)
                    };
                    if n == 0 {
                        Rc6Decoder { state: Rc6State::Done, data: bits, clock, ..pre }
                    } else {
                        Rc6Decoder {
                            state: Rc6State::Data((n - 1) as u8),
                            data: bits,
                            clock,
                            ..pre
                        }
                    }
                } else {
                    Rc6Decoder { clock, ..pre }
                }
            },
        },
        Rc6State::Done => pre,
        Rc6State::Failed(_) => pre,
    }
}

/// Field extraction: the high byte of the data word is the address, the low
/// byte the command; the trailer bit is reported as the repeat flag.
pub open spec fn rc6_unpack(bits: u16, toggle: bool) -> DecodedCommand {
    DecodedCommand {
        protocol: ProtocolId::Rc6,
        address: (bits >> 8) as u16,
        data: (bits & 0xFF) as u16,
        repeat: toggle,
    }
}

/// A freshly created decoder at `samplerate`.
pub open spec fn rc6_decoder_init(samplerate: u32) -> Rc6Decoder {
    Rc6Decoder {
        spans: rc6_spans(samplerate),
        state: Rc6State::Idle,
        data: 0,
        headerdata: 0,
        toggle: false,
        clock: 0,
    }
}

/// Two decoders that agree on everything except a trailer bit that has not
/// been read yet: the trailer is rewritten on every entry into the data
/// field, before anything consults it.
pub open spec fn rc6_lockstep(a: Rc6Decoder, b: Rc6Decoder) -> bool {
    &&& a.spans == b.spans
    &&& a.state == b.state
    &&& a.data == b.data
    &&& a.headerdata == b.headerdata
    &&& a.clock == b.clock
    &&& ((a.state matches Rc6State::Data(_)) ==> a.toggle == b.toggle)
    &&& (a.state is Done ==> a.toggle == b.toggle)
}

/// No state leaks across frames: RC-6 decoders in lockstep stay in
/// lockstep under every event and report the same command.
pub proof fn lemma_rc6_lockstep_step(a: Rc6Decoder, b: Rc6Decoder, rising: bool, dt: u32)
    requires
        rc6_lockstep(a, b),
    ensures
        rc6_lockstep(rc6_step(a, rising, dt), rc6_step(b, rising, dt)),
        rc6_step(a, rising, dt).spec_command() == rc6_step(b, rising, dt).spec_command(),
{
}

/// Recovery after an abandoned frame: a re-armed decoder is in lockstep
/// with a freshly created one.
pub proof fn lemma_rc6_reset_is_fresh(d: Rc6Decoder, samplerate: u32)
    requires
        d.spans == rc6_spans(samplerate),
    ensures
        rc6_lockstep(d.reset_state(), rc6_decoder_init(samplerate)),
{
}

/// One full dispatcher round on an RC-6 decoder: step on the event, collect
/// the command when the frame is done, and re-arm after done or error.
#[verifier::opaque]
pub open spec fn rc6_event_total(pre: Rc6Decoder, rising: bool, dt: u32) -> (Rc6Decoder, Option<
    DecodedCommand,
>) {
    let stepped = rc6_step(pre, rising, dt);
    match stepped.spec_state() {
        DecoderState::Done => (stepped.reset_state(), stepped.spec_command()),
        DecoderState::Error(_) => (stepped.reset_state(), None),
        _ => (stepped, None),
    }
}

impl Rc6Decoder {
    /// The bit positions never run past their fields.
    pub open spec fn wf(self) -> bool {
        &&& (self.state matches Rc6State::HeaderData(n) ==> n <= 3)
        &&& (self.state matches Rc6State::Data(n) ==> n <= 15)
    }

    /// The four-state shape this decoder shows the dispatcher.
    pub open spec fn spec_state(self) -> DecoderState {
        match self.state {
            Rc6State::Idle => DecoderState::Idle,
            Rc6State::Done => DecoderState::Done,
            Rc6State::Failed(e) => DecoderState::Error(e),
            _ => DecoderState::Receiving,
        }
    }

    /// The command this decoder reports in its current state.
    pub open spec fn spec_command(self) -> Option<DecodedCommand> {
        if self.state is Done {
            Some(rc6_unpack(self.data, self.toggle))
        } else {
            None
        }
    }

    /// The state reached by an explicit reset.
    pub open spec fn reset_state(self) -> Rc6Decoder {
        Rc6Decoder {
            state: Rc6State::Idle,
            data: 0,
            headerdata: 0,
            clock: 0,
            ..self
        }
    }

    /// Create a decoder at `samplerate` ticks per second.
    pub fn new(samplerate: u32) -> (r: Rc6Decoder)
        requires
            samplerate <= 1_000_000,
        ensures
            r == rc6_decoder_init(samplerate),
            r.wf(),
    {
        proof {
            lemma_ticks_le_us(444, samplerate);
            lemma_ticks_le_us(888, samplerate);
            lemma_ticks_le_us(1332, samplerate);
            lemma_ticks_le_us(1776, samplerate);
            lemma_ticks_le_us(2220, samplerate);
            lemma_ticks_le_us(2664, samplerate);
        }
        let spans = Rc6Spans {
            units1: PulseSpan::new(scale_us_to_ticks(444, samplerate), 12),
            units2: PulseSpan::new(scale_us_to_ticks(888, samplerate), 12),
            units3: PulseSpan::new(scale_us_to_ticks(1332, samplerate), 12),
            units4: PulseSpan::new(scale_us_to_ticks(1776, samplerate), 12),
            units5: PulseSpan::new(scale_us_to_ticks(2220, samplerate), 12),
            units6: PulseSpan::new(scale_us_to_ticks(2664, samplerate), 12),
        };
        Rc6Decoder {
            spans,
            state: Rc6State::Idle,
            data: 0,
            headerdata: 0,
            toggle: false,
            clock: 0,
        }
    }

    /// Feed one edge event.
    pub fn event(&mut self, rising: bool, dt: u32) -> (r: DecoderState)
        requires
            old(self).wf(),
        ensures
            *final(self) == rc6_step(*old(self), rising, dt),
            final(self).wf(),
            r == final(self).spec_state(),
    {
        let units = self.spans.units(dt);
        match self.state {
            Rc6State::Idle => {
                if rising {
                    self.clock = 0;
                    self.state = Rc6State::Leading;
                }
            },
            Rc6State::Leading => {
                if !rising && matches!(units, Some(6u32)) {
                    self.clock = self.clock.wrapping_add(6);
                    self.state = Rc6State::LeadingPaus;
                } else {
                    self.state = Rc6State::Idle;
                }
            },
            Rc6State::LeadingPaus => {
                if rising && matches!(units, Some(2u32)) {
                    self.clock = self.clock.wrapping_add(2);
                    self.state = Rc6State::HeaderData(3);
                } else {
                    self.state = Rc6State::Idle;
                }
            },
            Rc6State::HeaderData(n) => match units {
                Option::None => {
                    self.state = Rc6State::Idle;
                },
                Option::Some(u) => {
                    let clock = self.clock.wrapping_add(u);
                    self.clock = clock;
                    if clock % 2 == 1 {
                        if !rising {
                            self.headerdata = self.headerdata | (1u16 << n);
                        }
                        if n == 0 {
                            self.state = Rc6State::Trailing;
                        } else {
                            self.state = Rc6State::HeaderData(n - 1);
                        }
                    }
                },
            },
            Rc6State::Trailing => {
                if !rising && matches!(units, Some(3u32)) {
                    self.clock = self.clock.wrapping_add(3);
                    self.toggle = true;
                    self.state = Rc6State::Data(15);
                } else if rising && matches!(units, Some(2u32)) {
                    self.clock = self.clock.wrapping_add(2);
                    self.toggle = false;
                    self.state = Rc6State::Data(15);
                } else if !rising && matches!(units, Some(1u32)) {
                    self.clock = self.clock.wrapping_add(1);
                } else {
                    self.state = Rc6State::Idle;
                }
            },
            Rc6State::Data(n) => match units {
                Option::None => {
                    self.state = Rc6State::Failed(ErrorKind::OutOfTolerance);
                },
                Option::Some(u) => {
                    let clock = self.clock.wrapping_add(u);
                    self.clock = clock;
                    if clock % 2 == 1 {
                        if !rising {
                            self.data = self.data | (1u16 << n);
                        }
                        if n == 0 {
                            self.state = Rc6State::Done;
                        } else {
                            self.state = Rc6State::Data(n - 1);
                        }
                    }
                },
            },
            Rc6State::Done => {},
            Rc6State::Failed(_) => {},
        }
        self.state_shape()
    }

    /// The externally visible state.
    pub fn state_shape(&self) -> (r: DecoderState)
        ensures
            r == self.spec_state(),
    {
        match self.state {
            Rc6State::Idle => DecoderState::Idle,
            Rc6State::Done => DecoderState::Done,
            Rc6State::Failed(e) => DecoderState::Error(e),
            _ => DecoderState::Receiving,
        }
    }

    /// The decoded command, if the decoder is done.
    pub fn command(&self) -> (r: Option<DecodedCommand>)
        ensures
            r == self.spec_command(),
    {
        match self.state {
            Rc6State::Done => {
                let bits = self.data;
                proof {
                    assert(bits >> 8 <= 0xFFFFu16 && bits & 0xFF <= 0xFFFFu16) by (bit_vector);
                }
                Some(DecodedCommand {
                    protocol: ProtocolId::Rc6,
                    address: bits >> 8,
                    data: bits & 0xFF,
                    repeat: self.toggle,
                })
            },
            _ => None,
        }
    }

    /// Re-arm for the next frame.
    pub fn reset(&mut self)
        ensures
            *final(self) == old(self).reset_state(),
            final(self).wf(),
    {
        self.state = Rc6State::Idle;
        self.data = 0;
        self.headerdata = 0;
        self.clock = 0;
    }

    /// Feed one edge event, hand out a decoded command if the frame is
    /// done, and re-arm after done or error.
    pub fn event_total(&mut self, rising: bool, dt: u32) -> (r: Option<DecodedCommand>)
        requires
            old(self).wf(),
        ensures
            *final(self) == rc6_event_total(*old(self), rising, dt).0,
            r == rc6_event_total(*old(self), rising, dt).1,
            final(self).wf(),
    {
        proof {
            reveal(rc6_event_total);
        }
        let st = self.event(rising, dt);
        match st {
            DecoderState::Done => {
                let c = self.command();
                self.reset();
                c
            },
            DecoderState::Error(_) => {
                self.reset();
                None
            },
            _ => None,
        }
    }
}

} // verus!
