//! Edge-timing capture.
//!
//! [`Capturer`] consumes one level sample per timer tick, detects transitions
//! by comparing against the previously observed level, and records the
//! inter-transition interval in a bounded buffer of 128 entries. The buffer
//! is finalized and handed out when it fills, or when no edge has arrived for
//! longer than the inactivity timeout (one tenth of a second of ticks).

use vstd::prelude::*;

use crate::protocol::{CaptureData, Reply};

verus! {

/// Tick delta `ts - last`, wrapping at `2^32`.
pub open spec fn wrap_delta(ts: u32, last: u32) -> u32 {
    ts.wrapping_sub(last)
}

/// Interval value actually recorded for a delta: the low 16 bits.
pub open spec fn recorded_interval(d: u32) -> u16 {
    (d % 0x10000) as u16
}

/// Distinct indices land on distinct chunk/offset pairs.
proof fn lemma_divmod_distinct(k: int, i: int)
    requires
        0 <= k,
        0 <= i,
        k != i,
    ensures
        k / 32 != i / 32 || k % 32 != i % 32,
{
    vstd::arithmetic::div_mod::lemma_fundamental_div_mod(k, 32);
    vstd::arithmetic::div_mod::lemma_fundamental_div_mod(i, 32);
}

/// Build the framed capture reply for the first `len` recorded intervals.
pub fn capture_reply(samplerate: u32, buf: &[u16; 128], len: usize) -> (r: Reply)
    requires
        len <= 128,
    ensures
        (r matches Reply::CaptureReply { data } ==> {
            &&& data.wf()
            &&& data.samplerate == samplerate
            &&& data.len == len
            &&& data.intervals() == buf@.take(len as int)
        }),
        r is CaptureReply,
{
    let mut bufs: [[u16; 32]; 4] = [[0u16; 32]; 4];
    let mut i: usize = 0;
    while i < len
        invariant
            i <= len <= 128,
            forall|k: int| 0 <= k < i ==> #[trigger] bufs@[k / 32]@[k % 32] == buf@[k],
            forall|k: int| i <= k < 128 ==> #[trigger] bufs@[k / 32]@[k % 32] == 0u16,
        decreases len - i,
    {
        let b: usize = i / 32;
        let j: usize = i % 32;
        bufs[b][j] = buf[i];
        proof {
            assert forall|k: int| 0 <= k < i + 1 implies #[trigger] bufs@[k / 32]@[k % 32]
                == buf@[k] by {
                if k != i {
                    lemma_divmod_distinct(k, i as int);
                }
            }
            assert forall|k: int| i + 1 <= k < 128 implies #[trigger] bufs@[k / 32]@[k % 32]
                == 0u16 by {
                lemma_divmod_distinct(k, i as int);
            }
        }
        i = i + 1;
    }
    let data = CaptureData { samplerate, len: len as u32, bufs };
    proof {
        assert(data.intervals() =~= buf@.take(len as int));
    }
    Reply::CaptureReply { data }
}

/// The all-zero interval buffer.
pub open spec fn zero_buf() -> [u16; 128] {
    vstd::array::spec_array_fill_for_copy_type::<u16, 128>(0u16)
}

/// A freshly created capturer at `samplerate`, with the inactivity timeout
/// of one tenth of a second.
pub open spec fn capturer_init(samplerate: u32) -> Capturer {
    Capturer {
        ts_last_cmd: 0,
        timeout: (samplerate / 10) as u32,
        samplerate,
        buf: zero_buf(),
        i: 0,
        edge: false,
        last_edge: 0,
    }
}

/// What one call of [`Capturer::sample`] does: how the state after the call
/// and the returned reply relate to the state before it.
pub open spec fn sample_rel(pre: Capturer, edge: bool, ts: u32, post: Capturer, r: Option<
    Reply,
>) -> bool {
    let d = wrap_delta(ts, pre.last_edge);
    if edge == pre.edge {
        if pre.i != 0 && d > pre.timeout {
            // Inactivity flush: everything recorded goes out.
            &&& post == pre.reset_state()
            &&& (r matches Some(reply) ==> (reply matches Reply::CaptureReply { data }
                ==> data.samplerate == pre.samplerate && data.intervals() == pre.recorded()
                && data.wf()))
            &&& r is Some
            &&& (r matches Some(reply) ==> reply is CaptureReply)
        } else {
            // Nothing to record, nothing to flush.
            &&& post == pre
            &&& r is None
        }
    } else {
        let rec = pre.buf@.update(pre.i as int, recorded_interval(d));
        if pre.i + 1 == 128 {
            // Capacity flush: exactly the full buffer goes out.
            &&& post == (Capturer { buf: post.buf, ..pre.reset_state() })
            &&& post.buf@ == rec
            &&& (r matches Some(reply) ==> (reply matches Reply::CaptureReply { data }
                ==> data.samplerate == pre.samplerate && data.intervals() == rec && data.wf()))
            &&& r is Some
            &&& (r matches Some(reply) ==> reply is CaptureReply)
        } else {
            // Record the interval and keep accumulating.
            &&& post.buf@ == rec
            &&& post.i == pre.i + 1
            &&& post.edge == edge
            &&& post.last_edge == ts
            &&& post.ts_last_cmd == pre.ts_last_cmd
            &&& post.timeout == pre.timeout
            &&& post.samplerate == pre.samplerate
            &&& r is None
        }
    }
}

/// Capacity invariant: whatever one sample call does to a well-formed
/// capturer, the buffer never holds more than its capacity, a flushed
/// buffer holds at most capacity intervals, and a flush forced by a full
/// buffer hands out exactly capacity intervals — data is never dropped.
pub proof fn lemma_capacity_invariant(
    pre: Capturer,
    edge: bool,
    ts: u32,
    post: Capturer,
    r: Option<Reply>,
)
    requires
        pre.wf(),
        sample_rel(pre, edge, ts, post, r),
    ensures
        post.wf(),
        post.recorded().len() < 128,
        r matches Some(reply) ==> (reply matches Reply::CaptureReply { data }
            ==> data.intervals().len() <= 128),
        edge != pre.edge && pre.i + 1 == 128 ==> (r matches Some(reply) ==> (reply matches
            Reply::CaptureReply { data } ==> data.intervals().len() == 128)),
{
}

/// Bounded edge-interval capturer, fed one level sample per tick.
pub struct Capturer {
    /// Timestamp of the last control command (kept for parity with the wire
    /// state; not consulted while sampling).
    pub ts_last_cmd: u32,
    /// Inactivity flush threshold in ticks.
    pub timeout: u32,
    /// Ticks per second of the driving timer.
    pub samplerate: u32,
    /// Interval storage.
    pub buf: [u16; 128],
    /// Number of recorded intervals.
    pub i: usize,
    /// Level observed at the previous transition.
    pub edge: bool,
    /// Timestamp of the previous transition.
    pub last_edge: u32,
}

impl Capturer {
    /// Between calls the buffer always has room for the next interval; a
    /// write that fills slot 128 flushes within the same call.
    pub open spec fn wf(self) -> bool {
        self.i < 128
    }

    /// The intervals recorded so far.
    pub open spec fn recorded(self) -> Seq<u16> {
        self.buf@.take(self.i as int)
    }

    /// The state `self` reaches after a flush or an explicit reset: counters
    /// cleared, configuration and storage kept.
    pub open spec fn reset_state(self) -> Capturer {
        Capturer {
            ts_last_cmd: 0,
            i: 0,
            edge: false,
            last_edge: 0,
            ..self
        }
    }

    pub fn new(samplerate: u32) -> (r: Capturer)
        ensures
            r == capturer_init(samplerate),
            r.wf(),
            r.recorded() == Seq::<u16>::empty(),
    {
        let r = Capturer {
            ts_last_cmd: 0,
            timeout: samplerate / 10,
            samplerate,
            buf: [0u16; 128],
            i: 0,
            edge: false,
            last_edge: 0,
        };
        proof {
            assert(r.recorded() =~= Seq::<u16>::empty());
        }
        r
    }

    /// Clear the transient capture state without touching configuration.
    pub fn reset(&mut self)
        ensures
            *final(self) == old(self).reset_state(),
    {
        self.ts_last_cmd = 0;
        self.i = 0;
        self.edge = false;
        self.last_edge = 0;
    }

    /// Feed one level sample taken at tick `ts`.
    ///
    /// Without a transition, the buffer is flushed when it is non-empty and
    /// the wrapping distance to the last edge exceeds the timeout. With a
    /// transition, the interval is recorded and the buffer is flushed exactly
    /// when it reaches capacity; data is never silently dropped.
    pub fn sample(&mut self, edge: bool, ts: u32) -> (r: Option<Reply>)
        requires
            old(self).wf(),
        ensures
            final(self).wf(),
            sample_rel(*old(self), edge, ts, *final(self), r),
    {
        if edge == self.edge {
            if self.i != 0 && ts.wrapping_sub(self.last_edge) > self.timeout {
                let reply = capture_reply(self.samplerate, &self.buf, self.i);
                self.reset();
                return Some(reply);
            }
            return None;
        }

        self.edge = edge;
        let d: u32 = ts.wrapping_sub(self.last_edge);
        self.buf[self.i] = (d % 0x10000) as u16;
        self.i = self.i + 1;
        self.last_edge = ts;

        if self.i == 128 {
            let reply = capture_reply(self.samplerate, &self.buf, 128);
            proof {
                assert(self.buf@.take(128) =~= self.buf@);
            }
            self.reset();
            return Some(reply);
        }

        None
    }
}

/// The edge-interval capturer under the name the firmware targets use for
/// it; its sample operation is exactly that of [`Capturer`].
pub struct BlipCapturer {
    pub cap: Capturer,
}

impl BlipCapturer {
    pub open spec fn wf(self) -> bool {
        self.cap.wf()
    }

    pub fn new(samplerate: u32) -> (r: BlipCapturer)
        ensures
            r.cap == capturer_init(samplerate),
            r.wf(),
    {
        BlipCapturer { cap: Capturer::new(samplerate) }
    }

    /// Clear the transient capture state without touching configuration.
    pub fn reset(&mut self)
        ensures
            final(self).cap == old(self).cap.reset_state(),
            final(self).wf(),
    {
        self.cap.reset();
    }

    /// Feed one level sample taken at tick `ts`; exactly as
    /// [`Capturer::sample`]: the buffer is flushed when it is non-empty and
    /// the wrapping distance to the last edge exceeds the timeout, and on a
    /// transition the interval is recorded.
    pub fn sample(&mut self, edge: bool, ts: u32) -> (r: Option<Reply>)
        requires
            old(self).wf(),
        ensures
            final(self).wf(),
            sample_rel(old(self).cap, edge, ts, final(self).cap, r),
    {
        self.cap.sample(edge, ts)
    }
}

} // verus!
