//! Host-side replay adapter and selection helpers.
//!
//! A replayed waveform arrives as absolute 64-bit timestamps with levels;
//! the decoders want per-interval events. Converting — including the
//! narrowing to 32-bit tick deltas — is this adapter's job, not the
//! decoders'.

use vstd::prelude::*;

use crate::decoder::DecodedCommand;
use crate::dispatch::{feed_cmds, feed_state, Decoders};

verus! {

/// Magnitude unit of a waveform file's timescale.
#[derive(Clone, Copy, PartialEq, Eq, Structural, Debug)]
pub enum TimescaleUnit {
    Second,
    Milli,
    Micro,
    Nano,
    Pico,
    Femto,
}

/// The samplerate that a timescale of `magnitude` units denotes: one sample
/// per timescale step. Only millisecond and microsecond scales denote a
/// whole number of samples per second here.
pub fn samplerate_from_timescale(magnitude: u32, unit: TimescaleUnit) -> (r: Option<u32>)
    ensures
        magnitude == 0 ==> r is None,
        magnitude != 0 && unit is Milli ==> r == Some((1_000u32 / magnitude) as u32),
        magnitude != 0 && unit is Micro ==> r == Some((1_000_000u32 / magnitude) as u32),
        !(unit is Milli) && !(unit is Micro) ==> r is None,
{
    if magnitude == 0 {
        return None;
    }
    match unit {
        TimescaleUnit::Milli => Some(1_000 / magnitude),
        TimescaleUnit::Micro => Some(1_000_000 / magnitude),
        _ => None,
    }
}

/// The timestamp preceding change `i`: the previous change's, or zero.
pub open spec fn prev_ts(changes: Seq<(u64, bool)>, i: int) -> u64 {
    if i == 0 {
        0
    } else {
        changes[i - 1].0
    }
}

/// The conversion is possible: timestamps never decrease and no gap
/// overflows a 32-bit tick delta.
pub open spec fn rel_ok(changes: Seq<(u64, bool)>) -> bool {
    forall|i: int|
        0 <= i < changes.len() ==> prev_ts(changes, i) <= #[trigger] changes[i].0
            && changes[i].0 - prev_ts(changes, i) <= u32::MAX
}

/// The per-interval events of a change list: each level with the tick
/// delta to the change before it.
pub open spec fn rel_events(changes: Seq<(u64, bool)>) -> Seq<(bool, u32)> {
    Seq::new(changes.len(), |i: int| (changes[i].1, (changes[i].0 - prev_ts(changes, i)) as u32))
}

/// Convert absolute-timestamp level changes into per-interval edge events.
/// Fails when a timestamp decreases or a gap does not fit 32 bits.
pub fn relative_events(changes: &Vec<(u64, bool)>) -> (r: Option<Vec<(bool, u32)>>)
    ensures
        r is Some <==> rel_ok(changes@),
        r matches Some(v) ==> v@ == rel_events(changes@),
{
    let mut out: Vec<(bool, u32)> = Vec::new();
    let mut prev: u64 = 0;
    let mut i: usize = 0;
    while i < changes.len()
        invariant
            i <= changes@.len(),
            prev == prev_ts(changes@, i as int),
            forall|k: int|
                0 <= k < i ==> prev_ts(changes@, k) <= #[trigger] changes@[k].0 && changes@[k].0
                    - prev_ts(changes@, k) <= u32::MAX,
            out@ == rel_events(changes@).take(i as int),
        decreases changes@.len() - i,
    {
        let (t, level) = changes[i];
        if t < prev || t - prev > 0xFFFF_FFFFu64 {
            return None;
        }
        out.push((level, (t - prev) as u32));
        proof {
            assert(out@ =~= rel_events(changes@).take(i as int + 1));
        }
        prev = t;
        i = i + 1;
    }
    proof {
        assert(rel_events(changes@).take(changes@.len() as int) =~= rel_events(changes@));
    }
    Some(out)
}

/// Replay a waveform through the dispatcher: convert the absolute-timestamp
/// changes and feed every resulting edge event. Fails exactly when the
/// conversion does.
pub fn play_vcd(decoders: &mut Decoders, changes: &Vec<(u64, bool)>) -> (r: Option<Vec<
    DecodedCommand,
>>)
    requires
        old(decoders).wf(),
    ensures
        final(decoders).wf(),
        r is Some <==> rel_ok(changes@),
        r matches Some(v) ==> v@ == feed_cmds(*old(decoders), rel_events(changes@))
            && *final(decoders) == feed_state(*old(decoders), rel_events(changes@)),
        r is None ==> *final(decoders) == *old(decoders),
    {
    match relative_events(changes) {
        Some(events) => Some(decoders.feed(&events)),
        None => None,
    }
}

/// Which serial port to use: an explicitly named one, else the first
/// detected one, else the given default.
pub fn select_serialport(preferred: Option<String>, detected: Option<String>, fallback: String) -> (
    r: String)
    ensures
        (preferred matches Some(p) ==> r == p),
        preferred is None ==> (detected matches Some(d) ==> r == d),
        preferred is None && detected is None ==> r == fallback,
{
    match preferred {
        Some(p) => p,
        None => match detected {
            Some(d) => d,
            None => fallback,
        },
    }
}

} // verus!
