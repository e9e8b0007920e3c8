//! Pulse-distance decoder for the Samsung Blu-ray player protocol.
//!
//! A frame is a long header, a 16-bit address, a pause divider, then a
//! 20-bit command field whose low four bits are discarded and whose
//! remaining sixteen bits carry the command and its complement. As with the
//! NEC family, the decoder classifies the total mark-plus-space duration
//! between consecutive rising edges.

use vstd::prelude::*;

use crate::classify::{lemma_ticks_le_us, scale_us_to_ticks, span_of, PulseSpan};
use crate::decoder::{DecodedCommand, DecoderState, ErrorKind};
use crate::protocol::ProtocolId;

verus! {

/// Accepted windows for the four mark-plus-space totals of the protocol.
#[derive(Clone, Copy, PartialEq, Eq, Structural, Debug)]
pub struct SbpSpans {
    pub sync: PulseSpan,
    pub paus: PulseSpan,
    pub zero: PulseSpan,
    pub one: PulseSpan,
}

/// The windows at `samplerate`: header 9000 µs and divider 5000 µs with 5%
/// tolerance, data bits 1000 µs and 2000 µs with 10%.
pub open spec fn sbp_spans(samplerate: u32) -> SbpSpans {
    SbpSpans {
        sync: span_of(((9000 * samplerate) / 1_000_000) as u32, 5),
        paus: span_of(((5000 * samplerate) / 1_000_000) as u32, 5),
        zero: span_of(((1000 * samplerate) / 1_000_000) as u32, 10),
        one: span_of(((2000 * samplerate) / 1_000_000) as u32, 10),
    }
}

/// What a mark-plus-space total means to this decoder.
#[derive(Clone, Copy, PartialEq, Eq, Structural, Debug)]
pub enum SbpPulse {
    Sync,
    Paus,
    Zero,
    One,
    Invalid,
}

/// Classify a total duration against the four windows, first match first.
pub open spec fn sbp_classify(spans: SbpSpans, d: u32) -> SbpPulse {
    if spans.sync.spec_contains(d) {
        SbpPulse::Sync
    } else if spans.paus.spec_contains(d) {
        SbpPulse::Paus
    } else if spans.zero.spec_contains(d) {
        SbpPulse::Zero
    } else if spans.one.spec_contains(d) {
        SbpPulse::One
    } else {
        SbpPulse::Invalid
    }
}

impl SbpSpans {
    pub fn classify(&self, d: u32) -> (r: SbpPulse)
        ensures
            r == sbp_classify(*self, d),
    {
        if self.sync.contains(d) {
            SbpPulse::Sync
        } else if self.paus.contains(d) {
            SbpPulse::Paus
        } else if self.zero.contains(d) {
            SbpPulse::Zero
        } else if self.one.contains(d) {
            SbpPulse::One
        } else {
            SbpPulse::Invalid
        }
    }
}

/// Internal state of the decoder.
#[derive(Clone, Copy, PartialEq, Eq, Structural, Debug)]
pub enum SbpState {
    /// Waiting for the header.
    Init,
    /// Receiving address bit `n`.
    Address(u8),
    /// Waiting for the pause divider.
    Divider,
    /// Receiving command bit `n`.
    Command(u8),
    /// A full frame was received and validated.
    Done,
    /// The frame was abandoned.
    Failed(ErrorKind),
}

/// Decoder for the Samsung Blu-ray player protocol.
#[derive(Clone, Copy, PartialEq, Eq, Structural, Debug)]
pub struct SbpDecoder {
    pub spans: SbpSpans,
    pub state: SbpState,
    /// Address bits received so far.
    pub address: u16,
    /// Command bits received so far.
    pub command: u32,
    /// Duration of the mark saved at the last falling edge.
    pub dt_save: u32,
}

/// The 20 received command bits pass validation when, after the low four
/// are discarded, the upper byte is the complement of the lower.
pub open spec fn sbp_validate(command: u32) -> bool {
    (((command >> 4) ^ (command >> 12)) & 0xFF) == 0xFF
}

/// Field extraction: the received address, and the command byte after the
/// discarded low bits.
pub open spec fn sbp_unpack(address: u16, command: u32) -> DecodedCommand {
    DecodedCommand {
        protocol: ProtocolId::Sbp,
        address,
        data: ((command >> 4) & 0xFF) as u16,
        repeat: false,
    }
}

/// The transition the decoder makes on one edge event. A falling edge saves
/// the mark duration; a rising edge classifies the mark-plus-space total.
pub open spec fn sbp_step(pre: SbpDecoder, rising: bool, dt: u32) -> SbpDecoder {
    if !rising {
        SbpDecoder { dt_save: dt, ..pre }
    } else {
        let p = sbp_classify(pre.spans, pre.dt_save.wrapping_add(dt));
        let stepped = match pre.state {
            SbpState::Init => match p {
                SbpPulse::Sync => (SbpDecoder { state: SbpState::Address(0), address: 0, command: 0, ..pre }),
                _ => pre,
            },
            SbpState::Address(b) => match p {
                SbpPulse::Zero => if b == 15 {
                    SbpDecoder { state: SbpState::Divider, ..pre }
                } else {
                    SbpDecoder { state: SbpState::Address((b + 1) as u8), ..pre }
                },
                SbpPulse::One => {
                    let addr = pre.address | (1u16 << b);
                    if b == 15 {
                        SbpDecoder { state: SbpState::Divider, address: addr, ..pre }
                    } else {
                        SbpDecoder {
                            state: SbpState::Address((b + 1) as u8),
                            address: addr,
                            ..pre
                        }
                    }
                },
                _ => (SbpDecoder { state: SbpState::Failed(ErrorKind::OutOfTolerance), ..pre }),
            },
            SbpState::Divider => match p {
                SbpPulse::Paus => (SbpDecoder { state: SbpState::Command(0), ..pre }),
                _ => (SbpDecoder { state: SbpState::Failed(ErrorKind::OutOfTolerance), ..pre }),
            },
            SbpState::Command(b) => match p {
                SbpPulse::Zero => if b == 19 {
                    if sbp_validate(pre.command) {
                        SbpDecoder { state: SbpState::Done, ..pre }
                    } else {
                        SbpDecoder {
                            state: SbpState::Failed(ErrorKind::ChecksumMismatch),
                            ..pre
                        }
                    }
                } else {
                    SbpDecoder { state: SbpState::Command((b + 1) as u8), ..pre }
                },
                SbpPulse::One => {
                    let cmd = pre.command | (1u32 << b);
                    if b == 19 {
                        if sbp_validate(cmd) {
                            SbpDecoder { state: SbpState::Done, command: cmd, ..pre }
                        } else {
                            SbpDecoder {
                                state: SbpState::Failed(ErrorKind::ChecksumMismatch),
                                command: cmd,
                                ..pre
                            }
                        }
                    } else {
                        SbpDecoder {
                            state: SbpState::Command((b + 1) as u8),
                            command: cmd,
                            ..pre
                        }
                    }
                },
                _ => (SbpDecoder { state: SbpState::Failed(ErrorKind::OutOfTolerance), ..pre }),
            },
            SbpState::Done => pre,
            SbpState::Failed(_) => pre,
        };
        SbpDecoder { dt_save: 0, ..stepped }
    }
}

/// A freshly created decoder at `samplerate`.
pub open spec fn sbp_decoder_init(samplerate: u32) -> SbpDecoder {
    SbpDecoder {
        spans: sbp_spans(samplerate),
        state: SbpState::Init,
        address: 0,
        command: 0,
        dt_save: 0,
    }
}

/// Recovery after an abandoned frame: the decoder keeps nothing across a
/// reset, so a re-armed decoder is exactly a fresh one.
pub proof fn lemma_sbp_reset_is_fresh(d: SbpDecoder, samplerate: u32)
    requires
        d.spans == sbp_spans(samplerate),
    ensures
        d.reset_state() == sbp_decoder_init(samplerate),
{
}

/// One full dispatcher round on the decoder: step on the event, collect
/// the command when the frame is done, and re-arm after done or error.
#[verifier::opaque]
pub open spec fn sbp_event_total(pre: SbpDecoder, rising: bool, dt: u32) -> (SbpDecoder, Option<
    DecodedCommand,
>) {
    let stepped = sbp_step(pre, rising, dt);
    match stepped.spec_state() {
        DecoderState::Done => (stepped.reset_state(), stepped.spec_command()),
        DecoderState::Error(_) => (stepped.reset_state(), None),
        _ => (stepped, None),
    }
}

impl SbpDecoder {
    /// The bit positions never run past their fields.
    pub open spec fn wf(self) -> bool {
        &&& (self.state matches SbpState::Address(b) ==> b < 16)
        &&& (self.state matches SbpState::Command(b) ==> b < 20)
    }

    /// The four-state shape this decoder shows the dispatcher.
    pub open spec fn spec_state(self) -> DecoderState {
        match self.state {
            SbpState::Init => DecoderState::Idle,
            SbpState::Done => DecoderState::Done,
            SbpState::Failed(e) => DecoderState::Error(e),
            _ => DecoderState::Receiving,
        }
    }

    /// The command this decoder reports in its current state.
    pub open spec fn spec_command(self) -> Option<DecodedCommand> {
        if self.state is Done {
            Some(sbp_unpack(self.address, self.command))
        } else {
            None
        }
    }

    /// The state reached by an explicit reset.
    pub open spec fn reset_state(self) -> SbpDecoder {
        SbpDecoder { state: SbpState::Init, address: 0, command: 0, dt_save: 0, ..self }
    }

    /// Create a decoder at `samplerate` ticks per second.
    pub fn new(samplerate: u32) -> (r: SbpDecoder)
        requires
            samplerate <= 1_000_000,
        ensures
            r == sbp_decoder_init(samplerate),
            r.wf(),
    {
        proof {
            lemma_ticks_le_us(9000, samplerate);
            lemma_ticks_le_us(5000, samplerate);
            lemma_ticks_le_us(1000, samplerate);
            lemma_ticks_le_us(2000, samplerate);
        }
        let spans = SbpSpans {
            sync: PulseSpan::new(scale_us_to_ticks(9000, samplerate), 5),
            paus: PulseSpan::new(scale_us_to_ticks(5000, samplerate), 5),
            zero: PulseSpan::new(scale_us_to_ticks(1000, samplerate), 10),
            one: PulseSpan::new(scale_us_to_ticks(2000, samplerate), 10),
        };
        SbpDecoder { spans, state: SbpState::Init, address: 0, command: 0, dt_save: 0 }
    }

    /// Feed one edge event.
    pub fn event(&mut self, rising: bool, dt: u32) -> (r: DecoderState)
        requires
            old(self).wf(),
        ensures
            *final(self) == sbp_step(*old(self), rising, dt),
            final(self).wf(),
            r == final(self).spec_state(),
    {
        if rising {
            let total = self.dt_save.wrapping_add(dt);
            let p = self.spans.classify(total);
            match self.state {
                SbpState::Init => match p {
                    SbpPulse::Sync => {
                        self.address = 0;
                        self.command = 0;
                        self.state = SbpState::Address(0);
                    },
                    _ => {},
                },
                SbpState::Address(b) => match p {
                    SbpPulse::Zero => {
                        if b == 15 {
                            self.state = SbpState::Divider;
                        } else {
                            self.state = SbpState::Address(b + 1);
                        }
                    },
                    SbpPulse::One => {
                        self.address = self.address | (1u16 << b);
                        if b == 15 {
                            self.state = SbpState::Divider;
                        } else {
                            self.state = SbpState::Address(b + 1);
                        }
                    },
                    _ => {
                        self.state = SbpState::Failed(ErrorKind::OutOfTolerance);
                    },
                },
                SbpState::Divider => match p {
                    SbpPulse::Paus => {
                        self.state = SbpState::Command(0);
                    },
                    _ => {
                        self.state = SbpState::Failed(ErrorKind::OutOfTolerance);
                    },
                },
                SbpState::Command(b) => match p {
                    SbpPulse::Zero => {
                        if b == 19 {
                            if self.validate_command() {
                                self.state = SbpState::Done;
                            } else {
                                self.state = SbpState::Failed(ErrorKind::ChecksumMismatch);
                            }
                        } else {
                            self.state = SbpState::Command(b + 1);
                        }
                    },
                    SbpPulse::One => {
                        let cmd = self.command | (1u32 << b);
                        self.command = cmd;
                        if b == 19 {
                            if self.validate_command() {
                                self.state = SbpState::Done;
                            } else {
                                self.state = SbpState::Failed(ErrorKind::ChecksumMismatch);
                            }
                        } else {
                            self.state = SbpState::Command(b + 1);
                        }
                    },
                    _ => {
                        self.state = SbpState::Failed(ErrorKind::OutOfTolerance);
                    },
                },
                SbpState::Done => {},
                SbpState::Failed(_) => {},
            }
            self.dt_save = 0;
        } else {
            self.dt_save = dt;
        }
        self.state_shape()
    }

    /// Check the complement of the received command field.
    fn validate_command(&self) -> (r: bool)
        ensures
            r == sbp_validate(self.command),
    {
        (((self.command >> 4) ^ (self.command >> 12)) & 0xFF) == 0xFF
    }

    /// The externally visible state.
    pub fn state_shape(&self) -> (r: DecoderState)
        ensures
            r == self.spec_state(),
    {
        match self.state {
            SbpState::Init => DecoderState::Idle,
            SbpState::Done => DecoderState::Done,
            SbpState::Failed(e) => DecoderState::Error(e),
            _ => DecoderState::Receiving,
        }
    }

    /// The decoded command, if the decoder is done.
    pub fn command(&self) -> (r: Option<DecodedCommand>)
        ensures
            r == self.spec_command(),
    {
        match self.state {
            SbpState::Done => {
                let cmd = self.command;
                proof {
                    assert((cmd >> 4) & 0xFF <= 0xFFFF) by (bit_vector);
                }
                Some(DecodedCommand {
                    protocol: ProtocolId::Sbp,
                    address: self.address,
                    data: ((cmd >> 4) & 0xFF) as u16,
                    repeat: false,
                })
            },
            _ => None,
        }
    }

    /// Re-arm for the next frame.
    pub fn reset(&mut self)
        ensures
            *final(self) == old(self).reset_state(),
            final(self).wf(),
    {
        self.state = SbpState::Init;
        self.address = 0;
        self.command = 0;
        self.dt_save = 0;
    }

    /// Feed one edge event, hand out a decoded command if the frame is
    /// done, and re-arm after done or error.
    pub fn event_total(&mut self, rising: bool, dt: u32) -> (r: Option<DecodedCommand>)
        requires
            old(self).wf(),
        ensures
            *final(self) == sbp_event_total(*old(self), rising, dt).0,
            r == sbp_event_total(*old(self), rising, dt).1,
            final(self).wf(),
    {
        proof {
            reveal(sbp_event_total);
        }
        let st = self.event(rising, dt);
        match st {
            DecoderState::Done => {
                let c = self.command();
                self.reset();
                c
            },
            DecoderState::Error(_) => {
                self.reset();
                None
            },
            _ => None,
        }
    }
}

} // verus!
