//! Pulse-distance decoder for the NEC protocol family.
//!
//! One state machine serves all four variants; a variant tag selects the
//! timing table, the frame validator and the field extractor. A frame is a
//! long header mark and space, then 32 bits, each a fixed mark whose
//! following space length encodes the bit; the decoder classifies the total
//! mark-plus-space duration between consecutive rising edges. A distinguished
//! short header space announces a repeat frame, which re-reports the
//! previously decoded payload.
//!
//! Repeat policy: a repeat frame seen before any complete frame was decoded
//! yields no command.

use vstd::prelude::*;

use crate::classify::{lemma_ticks_le_us, scale_us_to_ticks, span_of, ticks_of_us, PulseSpan};
use crate::decoder::{DecodedCommand, DecoderState, ErrorKind};
use crate::protocol::ProtocolId;

verus! {

/// Descriptor tag: which NEC variant a decoder follows.
#[derive(Clone, Copy, PartialEq, Eq, Structural, Debug)]
pub enum NecVariant {
    Standard,
    Nec16,
    Samsung,
    Apple,
}

/// Pulse-distance timing of a NEC variant, in microseconds.
#[derive(Clone, Copy, PartialEq, Eq, Structural, Debug)]
pub struct NecTiming {
    pub header_mark: u32,
    pub header_space: u32,
    pub repeat_space: u32,
    pub bit_mark: u32,
    pub zero_space: u32,
    pub one_space: u32,
}

/// The timing table of each variant. Samsung devices shorten the header
/// mark; the other variants share the standard NEC timing.
pub open spec fn nec_timing(v: NecVariant) -> NecTiming {
    match v {
        NecVariant::Samsung => NecTiming {
            header_mark: 4500,
            header_space: 4500,
            repeat_space: 2250,
            bit_mark: 560,
            zero_space: 560,
            one_space: 1690,
        },
        _ => NecTiming {
            header_mark: 9000,
            header_space: 4500,
            repeat_space: 2250,
            bit_mark: 560,
            zero_space: 560,
            one_space: 1690,
        },
    }
}

/// Executable copy of the timing table.
pub fn nec_timing_of(v: NecVariant) -> (r: NecTiming)
    ensures
        r == nec_timing(v),
{
    match v {
        NecVariant::Samsung => NecTiming {
            header_mark: 4500,
            header_space: 4500,
            repeat_space: 2250,
            bit_mark: 560,
            zero_space: 560,
            one_space: 1690,
        },
        _ => NecTiming {
            header_mark: 9000,
            header_space: 4500,
            repeat_space: 2250,
            bit_mark: 560,
            zero_space: 560,
            one_space: 1690,
        },
    }
}

/// Accepted windows for the four mark-plus-space totals of the family.
#[derive(Clone, Copy, PartialEq, Eq, Structural, Debug)]
pub struct NecSpans {
    pub sync: PulseSpan,
    pub repeat: PulseSpan,
    pub zero: PulseSpan,
    pub one: PulseSpan,
}

/// The windows a decoder uses at `samplerate`: each expected total scaled
/// into ticks, with 7% tolerance on the headers and 5% on the data bits.
pub open spec fn nec_spans(v: NecVariant, samplerate: u32) -> NecSpans {
    let t = nec_timing(v);
    NecSpans {
        sync: span_of(
            (((t.header_mark + t.header_space) * samplerate) / 1_000_000) as u32,
            7,
        ),
        repeat: span_of(
            (((t.header_mark + t.repeat_space) * samplerate) / 1_000_000) as u32,
            7,
        ),
        zero: span_of((((t.bit_mark + t.zero_space) * samplerate) / 1_000_000) as u32, 5),
        one: span_of((((t.bit_mark + t.one_space) * samplerate) / 1_000_000) as u32, 5),
    }
}

/// What a mark-plus-space total means to a NEC decoder.
#[derive(Clone, Copy, PartialEq, Eq, Structural, Debug)]
pub enum NecPulse {
    Sync,
    Repeat,
    Zero,
    One,
    Invalid,
}

/// Classify a total duration against the four windows, first match first.
pub open spec fn nec_classify(spans: NecSpans, d: u32) -> NecPulse {
    if spans.sync.spec_contains(d) {
        NecPulse::Sync
    } else if spans.repeat.spec_contains(d) {
        NecPulse::Repeat
    } else if spans.zero.spec_contains(d) {
        NecPulse::Zero
    } else if spans.one.spec_contains(d) {
        NecPulse::One
    } else {
        NecPulse::Invalid
    }
}

impl NecSpans {
    pub fn classify(&self, d: u32) -> (r: NecPulse)
        ensures
            r == nec_classify(*self, d),
    {
        if self.sync.contains(d) {
            NecPulse::Sync
        } else if self.repeat.contains(d) {
            NecPulse::Repeat
        } else if self.zero.contains(d) {
            NecPulse::Zero
        } else if self.one.contains(d) {
            NecPulse::One
        } else {
            NecPulse::Invalid
        }
    }
}

/// Number of set bits among the lowest `n` bits of `bits`.
pub open spec fn ones(bits: u32, n: nat) -> nat
    decreases n,
{
    if n == 0 {
        0
    } else {
        (((bits >> ((n - 1) as u32)) & 1) as nat) + ones(bits, (n - 1) as nat)
    }
}

/// Count the set bits of a word.
pub fn count_ones(bits: u32) -> (r: u32)
    ensures
        r == ones(bits, 32),
{
    let mut cnt: u32 = 0;
    let mut k: u32 = 0;
    while k < 32
        invariant
            k <= 32,
            cnt == ones(bits, k as nat),
            cnt <= k,
        decreases 32 - k,
    {
        let bit: u32 = (bits >> k) & 1;
        proof {
            assert((bits >> k) & 1 <= 1) by (bit_vector);
        }
        cnt = cnt + bit;
        k = k + 1;
    }
    cnt
}

/// Frame validation of each variant over the 32 received bits.
///
/// The standard frame carries address, inverted address, command and
/// inverted command; the 16-bit-address variant drops the address
/// complement; the Samsung variant repeats the address instead of inverting
/// it; the Apple variant carries a fixed vendor field and odd parity.
pub open spec fn nec_validate(v: NecVariant, bits: u32) -> bool {
    match v {
        NecVariant::Standard => ((bits >> 24) ^ (bits >> 16)) & 0xFF == 0xFF && ((bits >> 8)
            ^ bits) & 0xFF == 0xFF,
        NecVariant::Nec16 => ((bits >> 24) ^ (bits >> 16)) & 0xFF == 0xFF,
        NecVariant::Samsung => ((bits >> 24) ^ (bits >> 16)) & 0xFF == 0xFF && ((bits >> 8)
            ^ bits) & 0xFF == 0,
        NecVariant::Apple => (bits >> 5) & 0x7FF == 0x43f && ones(bits, 32) % 2 == 1,
    }
}

/// Executable frame validation.
pub fn nec_validate_bits(v: NecVariant, bits: u32) -> (r: bool)
    ensures
        r == nec_validate(v, bits),
{
    match v {
        NecVariant::Standard => ((bits >> 24) ^ (bits >> 16)) & 0xFF == 0xFF && ((bits >> 8)
            ^ bits) & 0xFF == 0xFF,
        NecVariant::Nec16 => ((bits >> 24) ^ (bits >> 16)) & 0xFF == 0xFF,
        NecVariant::Samsung => ((bits >> 24) ^ (bits >> 16)) & 0xFF == 0xFF && ((bits >> 8)
            ^ bits) & 0xFF == 0,
        NecVariant::Apple => (bits >> 5) & 0x7FF == 0x43f && count_ones(bits) % 2 == 1,
    }
}

/// The protocol identifier each variant reports.
pub open spec fn nec_protocol(v: NecVariant) -> ProtocolId {
    match v {
        NecVariant::Standard => ProtocolId::Nec,
        NecVariant::Nec16 => ProtocolId::Nec16,
        NecVariant::Samsung => ProtocolId::NecSamsung,
        NecVariant::Apple => ProtocolId::NecApple,
    }
}

/// Field extraction of each variant: which protocol it reports and where
/// address and data sit in the 32 received bits.
pub open spec fn nec_unpack(v: NecVariant, bits: u32, repeat: bool) -> DecodedCommand {
    match v {
        NecVariant::Standard => DecodedCommand {
            protocol: ProtocolId::Nec,
            address: (bits & 0xFF) as u16,
            data: ((bits >> 16) & 0xFF) as u16,
            repeat,
        },
        NecVariant::Nec16 => DecodedCommand {
            protocol: ProtocolId::Nec16,
            address: (bits & 0xFFFF) as u16,
            data: ((bits >> 16) & 0xFF) as u16,
            repeat,
        },
        NecVariant::Samsung => DecodedCommand {
            protocol: ProtocolId::NecSamsung,
            address: (bits & 0xFF) as u16,
            data: ((bits >> 16) & 0xFF) as u16,
            repeat,
        },
        NecVariant::Apple => DecodedCommand {
            protocol: ProtocolId::NecApple,
            address: ((bits >> 24) & 0xFF) as u16,
            data: ((bits >> 17) & 0x7F) as u16,
            repeat,
        },
    }
}

/// Executable field extraction.
pub fn nec_unpack_bits(v: NecVariant, bits: u32, repeat: bool) -> (r: DecodedCommand)
    ensures
        r == nec_unpack(v, bits, repeat),
{
    proof {
        assert(bits & 0xFF <= 0xFFFF && bits & 0xFFFF <= 0xFFFF && (bits >> 16) & 0xFF
            <= 0xFFFF && (bits >> 24) & 0xFF <= 0xFFFF && (bits >> 17) & 0x7F <= 0xFFFF)
            by (bit_vector);
    }
    match v {
        NecVariant::Standard => DecodedCommand {
            protocol: ProtocolId::Nec,
            address: (bits & 0xFF) as u16,
            data: ((bits >> 16) & 0xFF) as u16,
            repeat,
        },
        NecVariant::Nec16 => DecodedCommand {
            protocol: ProtocolId::Nec16,
            address: (bits & 0xFFFF) as u16,
            data: ((bits >> 16) & 0xFF) as u16,
            repeat,
        },
        NecVariant::Samsung => DecodedCommand {
            protocol: ProtocolId::NecSamsung,
            address: (bits & 0xFF) as u16,
            data: ((bits >> 16) & 0xFF) as u16,
            repeat,
        },
        NecVariant::Apple => DecodedCommand {
            protocol: ProtocolId::NecApple,
            address: ((bits >> 24) & 0xFF) as u16,
            data: ((bits >> 17) & 0x7F) as u16,
            repeat,
        },
    }
}

/// The 32 bits a frame carries for an address/command pair, variant by
/// variant. The Apple variant has no encoder.
pub open spec fn nec_pack(v: NecVariant, addr: u16, cmd: u8) -> u32 {
    let a = addr as u32;
    let c = cmd as u32;
    match v {
        NecVariant::Standard => (a & 0xFF) | (((a & 0xFF) ^ 0xFF) << 8) | (c << 16) | ((c
            ^ 0xFF) << 24),
        NecVariant::Nec16 => a | (c << 16) | ((c ^ 0xFF) << 24),
        NecVariant::Samsung => (a & 0xFF) | ((a & 0xFF) << 8) | (c << 16) | ((c ^ 0xFF) << 24),
        NecVariant::Apple => 0,
    }
}

/// Executable frame packing.
pub fn nec_pack_bits(v: NecVariant, addr: u16, cmd: u8) -> (r: u32)
    requires
        !(v is Apple),
    ensures
        r == nec_pack(v, addr, cmd),
{
    let a: u32 = addr as u32;
    let c: u32 = cmd as u32;
    match v {
        NecVariant::Standard => (a & 0xFF) | (((a & 0xFF) ^ 0xFF) << 8u32) | (c << 16u32) | ((c
            ^ 0xFF) << 24u32),
        NecVariant::Nec16 => a | (c << 16u32) | ((c ^ 0xFF) << 24u32),
        NecVariant::Samsung => (a & 0xFF) | ((a & 0xFF) << 8u32) | (c << 16u32) | ((c ^ 0xFF)
            << 24u32),
        NecVariant::Apple => 0,
    }
}

/// Encode a frame as its 66 pulse intervals in ticks: header mark and
/// space, then for each of the 32 bits (lowest first) a bit mark and the
/// space whose length encodes the bit. The trailing stop mark that closes
/// the last space is not part of the list.
pub fn nec_encode(variant: NecVariant, addr: u16, cmd: u8, samplerate: u32) -> (r: Vec<u32>)
    requires
        samplerate <= 1_000_000,
        !(variant is Apple),
    ensures
        r@.len() == 66,
        ({
            let t = nec_timing(variant);
            let bits = nec_pack(variant, addr, cmd);
            &&& r@[0] == ticks_of_us(t.header_mark, samplerate)
            &&& r@[1] == ticks_of_us(t.header_space, samplerate)
            &&& forall|k: int|
                2 <= k < 66 ==> #[trigger] r@[k] == (if k % 2 == 0 {
                    ticks_of_us(t.bit_mark, samplerate)
                } else {
                    if (bits >> (((k - 3) / 2) as u32)) & 1 == 1 {
                        ticks_of_us(t.one_space, samplerate)
                    } else {
                        ticks_of_us(t.zero_space, samplerate)
                    }
                })
        }),
{
    let t = nec_timing_of(variant);
    proof {
        lemma_ticks_le_us(t.header_mark, samplerate);
        lemma_ticks_le_us(t.header_space, samplerate);
        lemma_ticks_le_us(t.bit_mark, samplerate);
        lemma_ticks_le_us(t.zero_space, samplerate);
        lemma_ticks_le_us(t.one_space, samplerate);
    }
    let hm: u32 = scale_us_to_ticks(t.header_mark, samplerate);
    let hs: u32 = scale_us_to_ticks(t.header_space, samplerate);
    let bm: u32 = scale_us_to_ticks(t.bit_mark, samplerate);
    let zs: u32 = scale_us_to_ticks(t.zero_space, samplerate);
    let os: u32 = scale_us_to_ticks(t.one_space, samplerate);
    let bits: u32 = nec_pack_bits(variant, addr, cmd);
    let mut r: Vec<u32> = Vec::new();
    r.push(hm);
    r.push(hs);
    let mut i: u32 = 0;
    while i < 32
        invariant
            i <= 32,
            r@.len() == 2 + 2 * i,
            r@[0] == ticks_of_us(nec_timing(variant).header_mark, samplerate),
            r@[1] == ticks_of_us(nec_timing(variant).header_space, samplerate),
            bits == nec_pack(variant, addr, cmd),
            bm == ticks_of_us(nec_timing(variant).bit_mark, samplerate),
            zs == ticks_of_us(nec_timing(variant).zero_space, samplerate),
            os == ticks_of_us(nec_timing(variant).one_space, samplerate),
            forall|k: int|
                2 <= k < r@.len() ==> #[trigger] r@[k] == (if k % 2 == 0 {
                    bm
                } else {
                    if (bits >> (((k - 3) / 2) as u32)) & 1 == 1 {
                        os
                    } else {
                        zs
                    }
                }),
        decreases 32 - i,
    {
        r.push(bm);
        if (bits >> i) & 1 == 1 {
            r.push(os);
        } else {
            r.push(zs);
        }
        i = i + 1;
    }
    r
}

/// Internal state of a NEC decoder.
#[derive(Clone, Copy, PartialEq, Eq, Structural, Debug)]
pub enum NecState {
    /// Waiting for a header.
    Init,
    /// Receiving data bit `n`.
    Receiving(u8),
    /// A full frame was received and validated.
    Done,
    /// A repeat frame was received.
    RepeatDone,
    /// The frame was abandoned.
    Failed(ErrorKind),
}

/// Decoder for one NEC-family variant.
#[derive(Clone, Copy, PartialEq, Eq, Structural, Debug)]
pub struct NecDecoder {
    pub variant: NecVariant,
    pub spans: NecSpans,
    pub state: NecState,
    /// Bits received so far; kept across frames so that a repeat frame can
    /// re-report the previous payload.
    pub bitbuf: u32,
    /// Duration of the mark saved at the last falling edge.
    pub dt_save: u32,
    /// Whether any frame has been fully decoded yet.
    pub has_cmd: bool,
}

/// The transition a NEC decoder makes on one edge event. A falling edge
/// saves the mark duration; a rising edge classifies the mark-plus-space
/// total and advances the frame.
pub open spec fn nec_step(pre: NecDecoder, rising: bool, dt: u32) -> NecDecoder {
    if !rising {
        NecDecoder { dt_save: dt, ..pre }
    } else {
        let p = nec_classify(pre.spans, pre.dt_save.wrapping_add(dt));
        let stepped = match pre.state {
            NecState::Init => match p {
                NecPulse::Sync => (NecDecoder {
                    state: NecState::Receiving(0),
                    bitbuf: 0,
                    ..pre
                }),
                NecPulse::Repeat => (NecDecoder { state: NecState::RepeatDone, ..pre }),
                _ => pre,
            },
            NecState::Receiving(b) => match p {
                NecPulse::Zero => if b == 31 {
                    if nec_validate(pre.variant, pre.bitbuf) {
                        NecDecoder { state: NecState::Done, has_cmd: true, ..pre }
                    } else {
                        NecDecoder {
                            state: NecState::Failed(ErrorKind::ChecksumMismatch),
                            ..pre
                        }
                    }
                } else {
                    NecDecoder { state: NecState::Receiving((b + 1) as u8), ..pre }
                },
                NecPulse::One => {
                    let bits = pre.bitbuf | (1u32 << b);
                    if b == 31 {
                        if nec_validate(pre.variant, bits) {
                            NecDecoder {
                                state: NecState::Done,
                                bitbuf: bits,
                                has_cmd: true,
                                ..pre
                            }
                        } else {
                            NecDecoder {
                                state: NecState::Failed(ErrorKind::ChecksumMismatch),
                                bitbuf: bits,
                                ..pre
                            }
                        }
                    } else {
                        NecDecoder {
                            state: NecState::Receiving((b + 1) as u8),
                            bitbuf: bits,
                            ..pre
                        }
                    }
                },
                _ => (NecDecoder { state: NecState::Failed(ErrorKind::OutOfTolerance), ..pre }),
            },
            NecState::Done => pre,
            NecState::RepeatDone => pre,
            NecState::Failed(_) => pre,
        };
        NecDecoder { dt_save: 0, ..stepped }
    }
}

/// Two decoders that agree on everything except the retained payload of an
/// earlier frame (which only a bare repeat frame can surface).
pub open spec fn lockstep(a: NecDecoder, b: NecDecoder) -> bool {
    &&& a.variant == b.variant
    &&& a.spans == b.spans
    &&& a.state == b.state
    &&& a.dt_save == b.dt_save
    &&& (a.state matches NecState::Receiving(_) ==> a.bitbuf == b.bitbuf)
    &&& (a.state is Done ==> a.bitbuf == b.bitbuf)
    &&& (a.state matches NecState::Failed(_) ==> a.bitbuf == b.bitbuf)
}

/// A decoder run over a whole sequence of edge events.
pub open spec fn nec_run(pre: NecDecoder, events: Seq<(bool, u32)>) -> NecDecoder
    decreases events.len(),
{
    if events.len() == 0 {
        pre
    } else {
        nec_step(nec_run(pre, events.drop_last()), events.last().0, events.last().1)
    }
}

/// No state leaks across frames: decoders in lockstep stay in lockstep
/// under every event, and report the same command whenever that command is
/// not a bare repeat.
pub proof fn lemma_lockstep_step(a: NecDecoder, b: NecDecoder, rising: bool, dt: u32)
    requires
        lockstep(a, b),
    ensures
        lockstep(nec_step(a, rising, dt), nec_step(b, rising, dt)),
        !(nec_step(a, rising, dt).state is RepeatDone) ==> nec_step(
            a,
            rising,
            dt,
        ).spec_command() == nec_step(b, rising, dt).spec_command(),
{
}

/// No state leaks across frames, over a whole run of edge events.
pub proof fn lemma_lockstep_run(a: NecDecoder, b: NecDecoder, events: Seq<(bool, u32)>)
    requires
        lockstep(a, b),
    ensures
        lockstep(nec_run(a, events), nec_run(b, events)),
        !(nec_run(a, events).state is RepeatDone) ==> nec_run(a, events).spec_command()
            == nec_run(b, events).spec_command(),
    decreases events.len(),
{
    if events.len() == 0 {
        assert(nec_run(a, events) == a);
        assert(nec_run(b, events) == b);
    } else {
        lemma_lockstep_run(a, b, events.drop_last());
        lemma_lockstep_step(
            nec_run(a, events.drop_last()),
            nec_run(b, events.drop_last()),
            events.last().0,
            events.last().1,
        );
    }
}

/// Recovery after an abandoned frame: a re-armed decoder is in lockstep
/// with a freshly created one, so everything decoded from then on matches
/// a fresh start, apart from what a bare repeat frame reports.
pub proof fn lemma_reset_is_fresh(d: NecDecoder, samplerate: u32)
    requires
        d.spans == nec_spans(d.variant, samplerate),
    ensures
        lockstep(d.reset_state(), nec_decoder_init(d.variant, samplerate)),
{
}

/// Malformed-frame recovery: whatever state an abandoned frame left a
/// decoder in — truncated mid-frame, failed validation, anything — once
/// the dispatcher re-arms it, the next complete encoded frame decodes to
/// exactly its own address and command. No state leaks across the error.
pub proof fn lemma_nec_recovery_after_reset(d: NecDecoder, addr: u16, cmd: u8)
    requires
        d.spans == nec_spans(d.variant, 40_000),
        !(d.variant is Apple),
        d.variant is Nec16 || addr <= 0xFF,
    ensures
        ({
            let bits = nec_pack(d.variant, addr, cmd);
            let post = nec_run(d.reset_state(), nec_frame_events(d.variant, bits));
            &&& post.state is Done
            &&& post.spec_command() == Some(
                DecodedCommand {
                    protocol: nec_protocol(d.variant),
                    address: addr,
                    data: cmd as u16,
                    repeat: false,
                },
            )
        }),
{
    let bits = nec_pack(d.variant, addr, cmd);
    let events = nec_frame_events(d.variant, bits);
    lemma_reset_is_fresh(d, 40_000);
    lemma_lockstep_run(d.reset_state(), nec_decoder_init(d.variant, 40_000), events);
    lemma_nec_round_trip(d.variant, addr, cmd);
}

/// A freshly created decoder for `variant` at `samplerate`.
pub open spec fn nec_decoder_init(variant: NecVariant, samplerate: u32) -> NecDecoder {
    NecDecoder {
        variant,
        spans: nec_spans(variant, samplerate),
        state: NecState::Init,
        bitbuf: 0,
        dt_save: 0,
        has_cmd: false,
    }
}

/// One full dispatcher round on a NEC decoder: step on the event, collect
/// the command when the frame is done, and re-arm after done or error.
#[verifier::opaque]
pub open spec fn nec_event_total(pre: NecDecoder, rising: bool, dt: u32) -> (NecDecoder, Option<
    DecodedCommand,
>) {
    let stepped = nec_step(pre, rising, dt);
    match stepped.spec_state() {
        DecoderState::Done => (stepped.reset_state(), stepped.spec_command()),
        DecoderState::Error(_) => (stepped.reset_state(), None),
        _ => (stepped, None),
    }
}

/// The `k`-th pulse interval, in ticks at 40 kHz, of a frame of variant
/// `v` that carries `bits`; the layout of [`nec_encode`].
pub open spec fn nec_frame_interval(v: NecVariant, bits: u32, k: int) -> u32 {
    if k == 0 {
        ((nec_timing(v).header_mark * 40_000) / 1_000_000) as u32
    } else if k == 1 {
        ((nec_timing(v).header_space * 40_000) / 1_000_000) as u32
    } else if k % 2 == 0 {
        22
    } else if (bits >> (((k - 3) / 2) as u32)) & 1 == 1 {
        67
    } else {
        22
    }
}

/// The edge events of such a frame after a long idle: the rising edge that
/// opens the header mark, then the edge closing each interval.
pub open spec fn nec_frame_events(v: NecVariant, bits: u32) -> Seq<(bool, u32)> {
    Seq::new(
        67,
        |j: int|
            if j == 0 {
                (true, 1_000_000u32)
            } else {
                (j % 2 == 0, nec_frame_interval(v, bits, j - 1))
            },
    )
}

/// Unfold one step of a run.
proof fn lemma_run_snoc(pre: NecDecoder, s: Seq<(bool, u32)>, n: int)
    requires
        0 <= n < s.len(),
    ensures
        nec_run(pre, s.take(n + 1)) == nec_step(nec_run(pre, s.take(n)), s[n].0, s[n].1),
{
    assert(s.take(n + 1).drop_last() =~= s.take(n));
    assert(s.take(n + 1).last() == s[n]);
}

/// After the header and `k` data bits, the decoder is receiving bit `k`
/// and holds exactly the low `k` bits of the frame.
proof fn lemma_nec_receives_bits(v: NecVariant, bits: u32, k: int)
    requires
        0 <= k <= 31,
    ensures
        ({
            let d = nec_run(
                nec_decoder_init(v, 40_000),
                nec_frame_events(v, bits).take(3 + 2 * k),
            );
            &&& d.state == NecState::Receiving(k as u8)
            &&& d.bitbuf == bits & !(0xFFFF_FFFFu32 << (k as u32))
            &&& d.dt_save == 0
            &&& d.variant == v
            &&& d.spans == nec_spans(v, 40_000)
            &&& d.has_cmd == false
        }),
    decreases k,
{
    let init = nec_decoder_init(v, 40_000);
    let s = nec_frame_events(v, bits);
    if k == 0 {
        lemma_run_snoc(init, s, 0);
        lemma_run_snoc(init, s, 1);
        lemma_run_snoc(init, s, 2);
        assert(s.take(0) =~= Seq::empty());
        assert(bits & !(0xFFFF_FFFFu32 << 0) == 0) by (bit_vector);
    } else {
        lemma_nec_receives_bits(v, bits, k - 1);
        lemma_run_snoc(init, s, 1 + 2 * k);
        lemma_run_snoc(init, s, 2 + 2 * k);
        let kk = (k - 1) as u32;
        assert((1 + 2 * k) % 2 == 1 && (2 + 2 * k) % 2 == 0);
        assert((1 + 2 * k) - 1 == 2 * k && ((2 * k) % 2 == 0));
        assert(((2 + 2 * k) - 1 - 3) / 2 == k - 1);
        assert(((bits >> kk) & 1 == 1) ==> ((bits & !(0xFFFF_FFFFu32 << kk)) | (1u32 << kk)) == (
        bits & !(0xFFFF_FFFFu32 << (kk + 1)))) by (bit_vector)
            requires
                kk < 31,
        ;
        assert(((bits >> kk) & 1 != 1) ==> (bits & !(0xFFFF_FFFFu32 << kk)) == (bits & !(
        0xFFFF_FFFFu32 << (kk + 1)))) by (bit_vector)
            requires
                kk < 31,
        ;
    }
}

/// Round trip: a frame encoded for any address and command of an encodable
/// variant decodes, at 40 kHz, to exactly that address and command.
pub proof fn lemma_nec_round_trip(v: NecVariant, addr: u16, cmd: u8)
    requires
        !(v is Apple),
        v is Nec16 || addr <= 0xFF,
    ensures
        ({
            let bits = nec_pack(v, addr, cmd);
            let post = nec_run(nec_decoder_init(v, 40_000), nec_frame_events(v, bits));
            &&& post.state is Done
            &&& post.spec_command() == Some(
                DecodedCommand {
                    protocol: nec_protocol(v),
                    address: addr,
                    data: cmd as u16,
                    repeat: false,
                },
            )
        }),
{
    let a = addr as u32;
    let c = cmd as u32;
    let bits = nec_pack(v, addr, cmd);
    let init = nec_decoder_init(v, 40_000);
    let s = nec_frame_events(v, bits);

    lemma_nec_receives_bits(v, bits, 31);
    lemma_run_snoc(init, s, 65);
    lemma_run_snoc(init, s, 66);
    assert(s.take(67) =~= s);
    assert((66 - 1 - 3) / 2 == 31);

    // Completing bit 31 restores the full word.
    assert(((bits >> 31) & 1 == 1) ==> ((bits & !(0xFFFF_FFFFu32 << 31)) | (1u32 << 31)) == bits)
        by (bit_vector);
    assert(((bits >> 31) & 1 != 1) ==> (bits & !(0xFFFF_FFFFu32 << 31)) == bits) by (bit_vector);

    // Each packed word carries the complements its variant checks for, and
    // unpacks to the fields it was built from.
    match v {
        NecVariant::Standard => {
            assert(bits == (a & 0xFF) | (((a & 0xFF) ^ 0xFF) << 8) | (c << 16) | ((c ^ 0xFF)
                << 24));
            assert(((bits >> 24) ^ (bits >> 16)) & 0xFF == 0xFF && ((bits >> 8) ^ bits) & 0xFF
                == 0xFF && bits & 0xFF == a && (bits >> 16) & 0xFF == c) by (bit_vector)
                requires
                    a <= 0xFF,
                    c <= 0xFF,
                    bits == (a & 0xFF) | (((a & 0xFF) ^ 0xFF) << 8) | (c << 16) | ((c ^ 0xFF)
                        << 24),
            ;
        },
        NecVariant::Nec16 => {
            assert(bits == a | (c << 16) | ((c ^ 0xFF) << 24));
            assert(((bits >> 24) ^ (bits >> 16)) & 0xFF == 0xFF && bits & 0xFFFF == a && (bits
                >> 16) & 0xFF == c) by (bit_vector)
                requires
                    a <= 0xFFFF,
                    c <= 0xFF,
                    bits == a | (c << 16) | ((c ^ 0xFF) << 24),
            ;
        },
        NecVariant::Samsung => {
            assert(bits == (a & 0xFF) | ((a & 0xFF) << 8) | (c << 16) | ((c ^ 0xFF) << 24));
            assert(((bits >> 24) ^ (bits >> 16)) & 0xFF == 0xFF && ((bits >> 8) ^ bits) & 0xFF
                == 0 && bits & 0xFF == a && (bits >> 16) & 0xFF == c) by (bit_vector)
                requires
                    a <= 0xFF,
                    c <= 0xFF,
                    bits == (a & 0xFF) | ((a & 0xFF) << 8) | (c << 16) | ((c ^ 0xFF) << 24),
            ;
        },
        NecVariant::Apple => {},
    }
}

impl NecDecoder {
    /// The bit counter never runs past the frame length.
    pub open spec fn wf(self) -> bool {
        self.state matches NecState::Receiving(b) ==> b < 32
    }

    /// The four-state shape this decoder shows the dispatcher.
    pub open spec fn spec_state(self) -> DecoderState {
        match self.state {
            NecState::Init => DecoderState::Idle,
            NecState::Receiving(_) => DecoderState::Receiving,
            NecState::Done => DecoderState::Done,
            NecState::RepeatDone => DecoderState::Done,
            NecState::Failed(e) => DecoderState::Error(e),
        }
    }

    /// The command this decoder reports in its current state.
    pub open spec fn spec_command(self) -> Option<DecodedCommand> {
        match self.state {
            NecState::Done => Some(nec_unpack(self.variant, self.bitbuf, false)),
            NecState::RepeatDone => if self.has_cmd {
                Some(nec_unpack(self.variant, self.bitbuf, true))
            } else {
                None
            },
            _ => None,
        }
    }

    /// The state reached by an explicit reset: re-armed for the next frame,
    /// previous payload kept for repeat reporting.
    pub open spec fn reset_state(self) -> NecDecoder {
        NecDecoder { state: NecState::Init, dt_save: 0, ..self }
    }

    /// Create a decoder for `variant` at `samplerate` ticks per second.
    pub fn new(variant: NecVariant, samplerate: u32) -> (r: NecDecoder)
        requires
            samplerate <= 1_000_000,
        ensures
            r == nec_decoder_init(variant, samplerate),
            r.wf(),
    {
        let t = nec_timing_of(variant);
        proof {
            lemma_ticks_le_us((t.header_mark + t.header_space) as u32, samplerate);
            lemma_ticks_le_us((t.header_mark + t.repeat_space) as u32, samplerate);
            lemma_ticks_le_us((t.bit_mark + t.zero_space) as u32, samplerate);
            lemma_ticks_le_us((t.bit_mark + t.one_space) as u32, samplerate);
        }
        let spans = NecSpans {
            sync: PulseSpan::new(scale_us_to_ticks(t.header_mark + t.header_space, samplerate), 7),
            repeat: PulseSpan::new(
                scale_us_to_ticks(t.header_mark + t.repeat_space, samplerate),
                7,
            ),
            zero: PulseSpan::new(scale_us_to_ticks(t.bit_mark + t.zero_space, samplerate), 5),
            one: PulseSpan::new(scale_us_to_ticks(t.bit_mark + t.one_space, samplerate), 5),
        };
        NecDecoder {
            variant,
            spans,
            state: NecState::Init,
            bitbuf: 0,
            dt_save: 0,
            has_cmd: false,
        }
    }

    /// Feed one edge event.
    pub fn event(&mut self, rising: bool, dt: u32) -> (r: DecoderState)
        requires
            old(self).wf(),
        ensures
            *final(self) == nec_step(*old(self), rising, dt),
            final(self).wf(),
            r == final(self).spec_state(),
    {
        if rising {
            let total = self.dt_save.wrapping_add(dt);
            let p = self.spans.classify(total);
            match self.state {
                NecState::Init => match p {
                    NecPulse::Sync => {
                        self.bitbuf = 0;
                        self.state = NecState::Receiving(0);
                    },
                    NecPulse::Repeat => {
                        self.state = NecState::RepeatDone;
                    },
                    _ => {},
                },
                NecState::Receiving(b) => match p {
                    NecPulse::Zero => {
                        if b == 31 {
                            if nec_validate_bits(self.variant, self.bitbuf) {
                                self.state = NecState::Done;
                                self.has_cmd = true;
                            } else {
                                self.state = NecState::Failed(ErrorKind::ChecksumMismatch);
                            }
                        } else {
                            self.state = NecState::Receiving(b + 1);
                        }
                    },
                    NecPulse::One => {
                        let bits = self.bitbuf | (1u32 << b);
                        self.bitbuf = bits;
                        if b == 31 {
                            if nec_validate_bits(self.variant, bits) {
                                self.state = NecState::Done;
                                self.has_cmd = true;
                            } else {
                                self.state = NecState::Failed(ErrorKind::ChecksumMismatch);
                            }
                        } else {
                            self.state = NecState::Receiving(b + 1);
                        }
                    },
                    _ => {
                        self.state = NecState::Failed(ErrorKind::OutOfTolerance);
                    },
                },
                NecState::Done => {},
                NecState::RepeatDone => {},
                NecState::Failed(_) => {},
            }
            self.dt_save = 0;
        } else {
            self.dt_save = dt;
        }
        self.state_shape()
    }

    /// The externally visible state.
    pub fn state_shape(&self) -> (r: DecoderState)
        ensures
            r == self.spec_state(),
    {
        match self.state {
            NecState::Init => DecoderState::Idle,
            NecState::Receiving(_) => DecoderState::Receiving,
            NecState::Done => DecoderState::Done,
            NecState::RepeatDone => DecoderState::Done,
            NecState::Failed(e) => DecoderState::Error(e),
        }
    }

    /// The decoded command, if the decoder is done.
    pub fn command(&self) -> (r: Option<DecodedCommand>)
        ensures
            r == self.spec_command(),
    {
        match self.state {
            NecState::Done => Some(nec_unpack_bits(self.variant, self.bitbuf, false)),
            NecState::RepeatDone => if self.has_cmd {
                Some(nec_unpack_bits(self.variant, self.bitbuf, true))
            } else {
                None
            },
            _ => None,
        }
    }

    /// Re-arm for the next frame.
    pub fn reset(&mut self)
        ensures
            *final(self) == old(self).reset_state(),
            final(self).wf(),
    {
        self.state = NecState::Init;
        self.dt_save = 0;
    }

    /// Feed one edge event, hand out a decoded command if the frame is
    /// done, and re-arm after done or error.
    pub fn event_total(&mut self, rising: bool, dt: u32) -> (r: Option<DecodedCommand>)
        requires
            old(self).wf(),
        ensures
            *final(self) == nec_event_total(*old(self), rising, dt).0,
            r == nec_event_total(*old(self), rising, dt).1,
            final(self).wf(),
    {
        proof {
            reveal(nec_event_total);
        }
        let st = self.event(rising, dt);
        match st {
            DecoderState::Done => {
                let c = self.command();
                self.reset();
                c
            },
            DecoderState::Error(_) => {
                self.reset();
                None
            },
            _ => None,
        }
    }
}

} // verus!
