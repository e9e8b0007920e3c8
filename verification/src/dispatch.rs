//! Multi-protocol dispatcher.
//!
//! The dispatcher owns one decoder per enabled protocol, feeds every decoder
//! the same edge event in a fixed order, and collects the commands of
//! whichever decoders complete a frame. A decoder that completes is re-armed
//! before the next event; a decoder that errors is re-armed silently.
//! Several decoders may legitimately complete on the same edge — the
//! dispatcher reports them all and leaves any priority choice to the caller.

use vstd::prelude::*;

use crate::decoder::DecodedCommand;
use crate::nec::{nec_decoder_init, nec_event_total, nec_run, nec_spans, nec_step, NecDecoder, NecVariant};
use crate::rc5::{
    rc5_decoder_init, rc5_event_total, rc5_frame_events, rc5_frame_prefix, Rc5Decoder,
};
use crate::rc6::{rc6_decoder_init, rc6_event_total, Rc6Decoder};
use crate::sbp::{sbp_decoder_init, sbp_event_total, SbpDecoder};

verus! {

/// One decoder per supported protocol.
#[derive(Clone, Copy, PartialEq, Eq, Structural, Debug)]
pub struct Decoders {
    pub nec: NecDecoder,
    pub nec16: NecDecoder,
    pub samsung: NecDecoder,
    pub apple: NecDecoder,
    pub rc5: Rc5Decoder,
    pub rc6: Rc6Decoder,
    pub sbp: SbpDecoder,
}

/// Where every decoder lands after one shared edge event: each advances as
/// a function of its own previous state and the event alone, so no decoder
/// can disturb another.
pub open spec fn dispatch_step(pre: Decoders, rising: bool, dt: u32) -> Decoders {
    Decoders {
        nec: nec_event_total(pre.nec, rising, dt).0,
        nec16: nec_event_total(pre.nec16, rising, dt).0,
        samsung: nec_event_total(pre.samsung, rising, dt).0,
        apple: nec_event_total(pre.apple, rising, dt).0,
        rc5: rc5_event_total(pre.rc5, rising, dt).0,
        rc6: rc6_event_total(pre.rc6, rising, dt).0,
        sbp: sbp_event_total(pre.sbp, rising, dt).0,
    }
}

/// A command option as a sequence of zero or one commands.
pub open spec fn opt_cmd_seq(c: Option<DecodedCommand>) -> Seq<DecodedCommand> {
    match c {
        Some(cmd) => seq![cmd],
        None => Seq::empty(),
    }
}

/// The commands one shared edge event completes, in dispatch order.
pub open spec fn dispatch_cmds(pre: Decoders, rising: bool, dt: u32) -> Seq<DecodedCommand> {
    opt_cmd_seq(nec_event_total(pre.nec, rising, dt).1) + opt_cmd_seq(
        nec_event_total(pre.nec16, rising, dt).1,
    ) + opt_cmd_seq(nec_event_total(pre.samsung, rising, dt).1) + opt_cmd_seq(
        nec_event_total(pre.apple, rising, dt).1,
    ) + opt_cmd_seq(rc5_event_total(pre.rc5, rising, dt).1) + opt_cmd_seq(
        rc6_event_total(pre.rc6, rising, dt).1,
    ) + opt_cmd_seq(sbp_event_total(pre.sbp, rising, dt).1)
}

/// The polarity of the `k`-th interval of a capture buffer: captures begin
/// on a rising edge and alternate.
pub open spec fn replay_polarity(k: int) -> bool {
    k % 2 == 0
}

/// Where every decoder lands after replaying a whole interval buffer.
pub open spec fn run_state(pre: Decoders, edges: Seq<u16>) -> Decoders
    decreases edges.len(),
{
    if edges.len() == 0 {
        pre
    } else {
        dispatch_step(
            run_state(pre, edges.drop_last()),
            replay_polarity(edges.len() - 1),
            edges.last() as u32,
        )
    }
}

/// Every command completed while replaying a whole interval buffer.
pub open spec fn run_cmds(pre: Decoders, edges: Seq<u16>) -> Seq<DecodedCommand>
    decreases edges.len(),
{
    if edges.len() == 0 {
        Seq::empty()
    } else {
        run_cmds(pre, edges.drop_last()) + dispatch_cmds(
            run_state(pre, edges.drop_last()),
            replay_polarity(edges.len() - 1),
            edges.last() as u32,
        )
    }
}

/// Where every decoder lands after a sequence of edge events.
pub open spec fn feed_state(pre: Decoders, events: Seq<(bool, u32)>) -> Decoders
    decreases events.len(),
{
    if events.len() == 0 {
        pre
    } else {
        dispatch_step(feed_state(pre, events.drop_last()), events.last().0, events.last().1)
    }
}

/// Every command completed over a sequence of edge events.
pub open spec fn feed_cmds(pre: Decoders, events: Seq<(bool, u32)>) -> Seq<DecodedCommand>
    decreases events.len(),
{
    if events.len() == 0 {
        Seq::empty()
    } else {
        feed_cmds(pre, events.drop_last()) + dispatch_cmds(
            feed_state(pre, events.drop_last()),
            events.last().0,
            events.last().1,
        )
    }
}

/// A NEC decoder fed the same events alone, with the dispatcher's
/// collect-and-re-arm behaviour.
pub open spec fn nec_feed(pre: NecDecoder, events: Seq<(bool, u32)>) -> NecDecoder
    decreases events.len(),
{
    if events.len() == 0 {
        pre
    } else {
        nec_event_total(nec_feed(pre, events.drop_last()), events.last().0, events.last().1).0
    }
}

/// An RC-5 decoder fed the same events alone, with the dispatcher's
/// collect-and-re-arm behaviour.
pub open spec fn rc5_feed(pre: Rc5Decoder, events: Seq<(bool, u32)>) -> Rc5Decoder
    decreases events.len(),
{
    if events.len() == 0 {
        pre
    } else {
        rc5_event_total(rc5_feed(pre, events.drop_last()), events.last().0, events.last().1).0
    }
}

/// Unfold one step of a NEC run.
proof fn lemma_nec_run_push(pre: NecDecoder, s: Seq<(bool, u32)>, e: (bool, u32))
    ensures
        nec_run(pre, s + seq![e]) == nec_step(nec_run(pre, s), e.0, e.1),
{
    assert((s + seq![e]).drop_last() =~= s);
    assert((s + seq![e]).last() == e);
}

/// Through the events of an RC-5 frame down to bit `i`, a NEC-family
/// decoder never leaves its initial state: no interval of the frame is
/// anywhere near a NEC header.
#[verifier::rlimit(60)]
proof fn lemma_nec_ignores_rc5_prefix(v: NecVariant, bits: u16, i: int)
    requires
        0 <= i <= 13,
    ensures
        ({
            let d = nec_run(nec_decoder_init(v, 40_000), rc5_frame_prefix(bits, i));
            &&& d.state is Init
            &&& (d.dt_save == 0 || d.dt_save == 35 || d.dt_save == 70)
            &&& d.spans == nec_spans(v, 40_000)
        }),
    decreases 13 - i,
{
    let init = nec_decoder_init(v, 40_000);
    if i == 13 {
        assert(rc5_frame_prefix(bits, 13) =~= Seq::empty() + seq![(true, 1_000_000u32)]);
        lemma_nec_run_push(init, Seq::empty(), (true, 1_000_000u32));
        assert(nec_run(init, Seq::<(bool, u32)>::empty()) == init);
    } else {
        lemma_nec_ignores_rc5_prefix(v, bits, i + 1);
        let ev = crate::rc5::rc5_bit_events(bits, i);
        if ev.len() == 2 {
            assert(rc5_frame_prefix(bits, i) =~= (rc5_frame_prefix(bits, i + 1) + seq![ev[0]])
                + seq![ev[1]]);
            lemma_nec_run_push(init, rc5_frame_prefix(bits, i + 1), ev[0]);
            lemma_nec_run_push(init, rc5_frame_prefix(bits, i + 1) + seq![ev[0]], ev[1]);
        } else {
            assert(rc5_frame_prefix(bits, i) =~= rc5_frame_prefix(bits, i + 1) + seq![ev[0]]);
            lemma_nec_run_push(init, rc5_frame_prefix(bits, i + 1), ev[0]);
        }
    }
}

/// The starving half of cross-protocol independence: an RC-5 frame leaves
/// every NEC-family decoder idle. Together with the RC-5 round trip this
/// is the cross-protocol property: the same edges complete one protocol's
/// decoder while the other never even starts a frame.
pub proof fn lemma_rc5_frame_leaves_nec_idle(v: NecVariant, bits: u16)
    ensures
        nec_run(nec_decoder_init(v, 40_000), rc5_frame_events(bits)).spec_state()
            == crate::decoder::DecoderState::Idle,
{
    lemma_nec_ignores_rc5_prefix(v, bits, 0);
}

/// Cross-protocol independence: over any event sequence, the dispatcher's
/// NEC and RC-5 decoders land exactly where they would land fed alone —
/// one protocol's frames cannot disturb another's decoder beyond what the
/// shared edges themselves do. The same holds for every other decoder by
/// the shape of [`dispatch_step`].
pub proof fn lemma_cross_protocol_independence(pre: Decoders, events: Seq<(bool, u32)>)
    ensures
        feed_state(pre, events).nec == nec_feed(pre.nec, events),
        feed_state(pre, events).rc5 == rc5_feed(pre.rc5, events),
    decreases events.len(),
{
    if events.len() != 0 {
        lemma_cross_protocol_independence(pre, events.drop_last());
    }
}

impl Decoders {
    /// All decoders are well-formed.
    pub open spec fn wf(self) -> bool {
        &&& self.nec.wf()
        &&& self.nec16.wf()
        &&& self.samsung.wf()
        &&& self.apple.wf()
        &&& self.rc5.wf()
        &&& self.rc6.wf()
        &&& self.sbp.wf()
    }

    /// Create one decoder per protocol at `samplerate` ticks per second.
    pub fn new(samplerate: u32) -> (r: Decoders)
        requires
            samplerate <= 1_000_000,
        ensures
            r == (Decoders {
                nec: nec_decoder_init(NecVariant::Standard, samplerate),
                nec16: nec_decoder_init(NecVariant::Nec16, samplerate),
                samsung: nec_decoder_init(NecVariant::Samsung, samplerate),
                apple: nec_decoder_init(NecVariant::Apple, samplerate),
                rc5: rc5_decoder_init(samplerate),
                rc6: rc6_decoder_init(samplerate),
                sbp: sbp_decoder_init(samplerate),
            }),
            r.wf(),
    {
        Decoders {
            nec: NecDecoder::new(NecVariant::Standard, samplerate),
            nec16: NecDecoder::new(NecVariant::Nec16, samplerate),
            samsung: NecDecoder::new(NecVariant::Samsung, samplerate),
            apple: NecDecoder::new(NecVariant::Apple, samplerate),
            rc5: Rc5Decoder::new(samplerate),
            rc6: Rc6Decoder::new(samplerate),
            sbp: SbpDecoder::new(samplerate),
        }
    }

    /// Feed one edge event to every decoder and collect completed commands.
    #[verifier::rlimit(100)]
    #[verifier::spinoff_prover]
    pub fn event(&mut self, rising: bool, dt: u32) -> (out: Vec<DecodedCommand>)
        requires
            old(self).wf(),
        ensures
            *final(self) == dispatch_step(*old(self), rising, dt),
            final(self).wf(),
            out@ == dispatch_cmds(*old(self), rising, dt),
    {
        let mut out: Vec<DecodedCommand> = Vec::new();
        if let Some(c) = self.nec.event_total(rising, dt) {
            out.push(c);
        }
        if let Some(c) = self.nec16.event_total(rising, dt) {
            out.push(c);
        }
        if let Some(c) = self.samsung.event_total(rising, dt) {
            out.push(c);
        }
        if let Some(c) = self.apple.event_total(rising, dt) {
            out.push(c);
        }
        if let Some(c) = self.rc5.event_total(rising, dt) {
            out.push(c);
        }
        if let Some(c) = self.rc6.event_total(rising, dt) {
            out.push(c);
        }
        if let Some(c) = self.sbp.event_total(rising, dt) {
            out.push(c);
        }
        proof {
            assert(out@ =~= dispatch_cmds(*old(self), rising, dt));
        }
        out
    }

    /// Replay a finalized capture buffer: feed each interval as one edge
    /// event of alternating polarity, starting with a rising edge, and
    /// collect every command any decoder completes along the way.
    pub fn run(&mut self, edges: &[u16]) -> (out: Vec<DecodedCommand>)
        requires
            old(self).wf(),
        ensures
            *final(self) == run_state(*old(self), edges@),
            final(self).wf(),
            out@ == run_cmds(*old(self), edges@),
    {
        let ghost pre = *self;
        let mut out: Vec<DecodedCommand> = Vec::new();
        let mut k: usize = 0;
        while k < edges.len()
            invariant
                k <= edges@.len(),
                self.wf(),
                *self == run_state(pre, edges@.take(k as int)),
                out@ == run_cmds(pre, edges@.take(k as int)),
            decreases edges@.len() - k,
        {
            let rising: bool = k % 2 == 0;
            let dt: u32 = *vstd::slice::slice_index_get(edges, k) as u32;
            let mut step_out = self.event(rising, dt);
            let ghost mid = out@;
            out.append(&mut step_out);
            proof {
                assert(edges@.take(k as int + 1).drop_last() =~= edges@.take(k as int));
                assert(edges@.take(k as int + 1).last() == edges@[k as int]);
            }
            k = k + 1;
        }
        proof {
            assert(edges@.take(edges@.len() as int) =~= edges@);
        }
        out
    }

    /// Feed a whole sequence of edge events and collect every command any
    /// decoder completes along the way.
    pub fn feed(&mut self, events: &Vec<(bool, u32)>) -> (out: Vec<DecodedCommand>)
        requires
            old(self).wf(),
        ensures
            *final(self) == feed_state(*old(self), events@),
            final(self).wf(),
            out@ == feed_cmds(*old(self), events@),
    {
        let ghost pre = *self;
        let mut out: Vec<DecodedCommand> = Vec::new();
        let mut k: usize = 0;
        while k < events.len()
            invariant
                k <= events@.len(),
                self.wf(),
                *self == feed_state(pre, events@.take(k as int)),
                out@ == feed_cmds(pre, events@.take(k as int)),
            decreases events@.len() - k,
        {
            let (rising, dt) = events[k];
            let mut step_out = self.event(rising, dt);
            out.append(&mut step_out);
            proof {
                assert(events@.take(k as int + 1).drop_last() =~= events@.take(k as int));
                assert(events@.take(k as int + 1).last() == events@[k as int]);
            }
            k = k + 1;
        }
        proof {
            assert(events@.take(events@.len() as int) =~= events@);
        }
        out
    }

    /// Re-arm every decoder.
    pub fn reset(&mut self)
        ensures
            final(self).nec == old(self).nec.reset_state(),
            final(self).nec16 == old(self).nec16.reset_state(),
            final(self).samsung == old(self).samsung.reset_state(),
            final(self).apple == old(self).apple.reset_state(),
            final(self).rc5 == old(self).rc5.reset_state(),
            final(self).rc6 == old(self).rc6.reset_state(),
            final(self).sbp == old(self).sbp.reset_state(),
            final(self).wf(),
    {
        self.nec.reset();
        self.nec16.reset();
        self.samsung.reset();
        self.apple.reset();
        self.rc5.reset();
        self.rc6.reset();
        self.sbp.reset();
    }
}

} // verus!
