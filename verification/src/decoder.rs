//! Types shared by all protocol decoders.
//!
//! Every decoder consumes edge events `(rising, dt)` — the polarity of a
//! transition and the ticks elapsed since the previous transition — and
//! exposes the same four-state shape to the dispatcher: idle, receiving,
//! done, or a recoverable error.

use vstd::prelude::*;

use crate::protocol::ProtocolId;

verus! {

/// Why a decoder or capturer gave up on the current frame.
#[derive(Clone, Copy, PartialEq, Eq, Structural, Debug)]
pub enum ErrorKind {
    /// Inactivity flush: a control signal, not a failure.
    Timeout,
    /// An observed interval fell outside the descriptor's accepted window.
    OutOfTolerance,
    /// A frame was fully received but failed protocol-specific validation.
    ChecksumMismatch,
    /// The capture buffer reached capacity and was auto-flushed.
    BufferOverrun,
}

/// The externally visible state of a protocol decoder.
#[derive(Clone, Copy, PartialEq, Eq, Structural, Debug)]
pub enum DecoderState {
    Idle,
    Receiving,
    Done,
    Error(ErrorKind),
}

/// A decoded remote-control command.
#[derive(Clone, Copy, PartialEq, Eq, Structural, Debug)]
pub struct DecodedCommand {
    pub protocol: ProtocolId,
    pub address: u16,
    pub data: u16,
    pub repeat: bool,
}

} // verus!
