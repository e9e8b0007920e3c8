//! Infrared remote-control capture and decoding.
//!
//! The crate turns a stream of sampled GPIO levels into bounded buffers of
//! inter-edge intervals ([`capture`]), and turns edge events into decoded
//! remote-control commands for several infrared protocols: the NEC family,
//! RC-5, RC-6 and the Samsung Blu-ray player protocol ([`nec`], [`rc5`],
//! [`rc6`], [`sbp`]). A dispatcher feeds every enabled decoder the same edge
//! stream and collects whatever any of them decodes ([`dispatch`]).
//!
//! All timing is tick-quantized: durations are measured in ticks of a fixed
//! samplerate, and expected symbol durations are pre-scaled from microseconds
//! into ticks ([`classify`]).

pub mod blip;
pub mod capture;
pub mod classify;
pub mod decoder;
pub mod dispatch;
pub mod host;
pub mod nec;
pub mod protocol;
pub mod rc5;
pub mod rc6;
pub mod sbp;
