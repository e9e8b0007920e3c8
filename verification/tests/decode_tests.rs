use blipper::decoder::{DecodedCommand, DecoderState, ErrorKind};
use blipper::dispatch::Decoders;
use blipper::nec::{nec_encode, NecDecoder, NecVariant};
use blipper::protocol::ProtocolId;
use blipper::rc5::Rc5Decoder;
use blipper::rc6::Rc6Decoder;
use blipper::sbp::SbpDecoder;

/// A frame starts with a rising edge out of a long idle; each interval then
/// ends with one edge of alternating polarity, falling first.
fn frame_events(intervals: &[u32]) -> Vec<(bool, u32)> {
    let mut ev: Vec<(bool, u32)> = vec![(true, 1_000_000)];
    for (j, &d) in intervals.iter().enumerate() {
        ev.push((j % 2 == 1, d));
    }
    ev
}

/// Interval list for a raw 32-bit NEC word at 40 kHz standard timing.
fn nec_intervals_from_bits(bits: u32) -> Vec<u32> {
    let mut v: Vec<u32> = vec![360, 180];
    for i in 0..32 {
        v.push(22);
        v.push(if (bits >> i) & 1 == 1 { 67 } else { 22 });
    }
    v
}

fn collect_nec(d: &mut NecDecoder, events: &[(bool, u32)]) -> Vec<DecodedCommand> {
    let mut out = Vec::new();
    for &(rising, dt) in events {
        if let Some(c) = d.event_total(rising, dt) {
            out.push(c);
        }
    }
    out
}

/// Manchester waveform of an RC-5 frame as edge events at 40 kHz: one
/// half-period is 35 ticks; a one-bit is low then high.
fn rc5_events(bits: u16) -> Vec<(bool, u32)> {
    let mut halves: Vec<u8> = Vec::new();
    for i in (0..14).rev() {
        if (bits >> i) & 1 == 1 {
            halves.push(0);
            halves.push(1);
        } else {
            halves.push(1);
            halves.push(0);
        }
    }
    levels_to_events(&halves, 35)
}

/// RC-6 mode-0 waveform: leader, start bit, three mode bits, toggle, then
/// sixteen data bits, one time unit being 17 ticks at 40 kHz. A one-bit is
/// high then low.
fn rc6_events(data: u16, toggle: bool) -> Vec<(bool, u32)> {
    let mut halves: Vec<u8> = Vec::new();
    for _ in 0..6 {
        halves.push(1);
    }
    halves.push(0);
    halves.push(0);
    // Start bit, always one.
    halves.push(1);
    halves.push(0);
    // Three mode bits, all zero.
    for _ in 0..3 {
        halves.push(0);
        halves.push(1);
    }
    // Double-width toggle bit.
    if toggle {
        halves.push(1);
        halves.push(1);
        halves.push(0);
        halves.push(0);
    } else {
        halves.push(0);
        halves.push(0);
        halves.push(1);
        halves.push(1);
    }
    for i in (0..16).rev() {
        if (data >> i) & 1 == 1 {
            halves.push(1);
            halves.push(0);
        } else {
            halves.push(0);
            halves.push(1);
        }
    }
    levels_to_events(&halves, 17)
}

/// Turn a run of levels (one entry per time slot) into edge events.
fn levels_to_events(halves: &[u8], ticks_per_slot: u32) -> Vec<(bool, u32)> {
    let mut ev: Vec<(bool, u32)> = Vec::new();
    let mut prev: u8 = 0;
    let mut run: u32 = 0;
    let mut first = true;
    for &h in halves {
        if h == prev {
            run += 1;
        } else {
            if first {
                ev.push((h == 1, 1_000_000));
                first = false;
            } else {
                ev.push((h == 1, run * ticks_per_slot));
            }
            prev = h;
            run = 1;
        }
    }
    ev
}

#[test]
fn nec_round_trip() {
    // Standard NEC frame for address 0x12, command 0x34 at 40 kHz:
    // header 9000/4500 µs = 360/180 ticks, bit marks 560 µs = 22 ticks.
    let intervals = nec_encode(NecVariant::Standard, 0x12, 0x34, 40_000);
    assert_eq!(intervals[0], 360);
    assert_eq!(intervals[1], 180);
    assert_eq!(intervals[2], 22);

    let mut d = NecDecoder::new(NecVariant::Standard, 40_000);
    let cmds = collect_nec(&mut d, &frame_events(&intervals));
    assert_eq!(cmds.len(), 1);
    assert_eq!(
        cmds[0],
        DecodedCommand { protocol: ProtocolId::Nec, address: 0x12, data: 0x34, repeat: false }
    );
}

#[test]
fn nec16_round_trip() {
    let intervals = nec_encode(NecVariant::Nec16, 0x1234, 0x56, 40_000);
    let mut d = NecDecoder::new(NecVariant::Nec16, 40_000);
    let cmds = collect_nec(&mut d, &frame_events(&intervals));
    assert_eq!(cmds.len(), 1);
    assert_eq!(
        cmds[0],
        DecodedCommand { protocol: ProtocolId::Nec16, address: 0x1234, data: 0x56, repeat: false }
    );
}

#[test]
fn samsung_round_trip() {
    let intervals = nec_encode(NecVariant::Samsung, 0x07, 0x2C, 40_000);
    assert_eq!(intervals[0], 180);
    assert_eq!(intervals[1], 180);
    let mut d = NecDecoder::new(NecVariant::Samsung, 40_000);
    let cmds = collect_nec(&mut d, &frame_events(&intervals));
    assert_eq!(cmds.len(), 1);
    assert_eq!(
        cmds[0],
        DecodedCommand {
            protocol: ProtocolId::NecSamsung,
            address: 0x07,
            data: 0x2C,
            repeat: false
        }
    );
}

#[test]
fn apple_frame_decodes() {
    // Vendor field 0x43f, command page 2, command 0x15, device id 0x7C,
    // with the parity bit chosen to make the bit count odd.
    let mut bits: u32 = 2 | (0x43f << 5) | (0x15 << 17) | (0x7C << 24);
    if bits.count_ones() % 2 == 0 {
        bits |= 1 << 16;
    }
    let mut d = NecDecoder::new(NecVariant::Apple, 40_000);
    let cmds = collect_nec(&mut d, &frame_events(&nec_intervals_from_bits(bits)));
    assert_eq!(cmds.len(), 1);
    assert_eq!(
        cmds[0],
        DecodedCommand {
            protocol: ProtocolId::NecApple,
            address: 0x7C,
            data: 0x15,
            repeat: false
        }
    );
}

#[test]
fn nec_checksum_mismatch() {
    // Valid address bytes but a command byte that is not complemented.
    let bits: u32 = 0x12 | (0xED << 8) | (0x34 << 16) | (0x34 << 24);
    let mut d = NecDecoder::new(NecVariant::Standard, 40_000);
    let mut last = DecoderState::Idle;
    for (rising, dt) in frame_events(&nec_intervals_from_bits(bits)) {
        last = d.event(rising, dt);
    }
    assert_eq!(last, DecoderState::Error(ErrorKind::ChecksumMismatch));
}

#[test]
fn nec_out_of_tolerance() {
    let mut d = NecDecoder::new(NecVariant::Standard, 40_000);
    d.event(true, 1_000_000);
    d.event(false, 360);
    assert_eq!(d.event(true, 180), DecoderState::Receiving);
    d.event(false, 22);
    assert_eq!(d.event(true, 999), DecoderState::Error(ErrorKind::OutOfTolerance));
}

#[test]
fn nec_repeat_reports_previous_command() {
    let intervals = nec_encode(NecVariant::Standard, 0x12, 0x34, 40_000);
    let mut d = NecDecoder::new(NecVariant::Standard, 40_000);
    let mut cmds = collect_nec(&mut d, &frame_events(&intervals));
    // Stop mark ends, long idle, then a repeat frame: 9000 µs mark and
    // 2250 µs space.
    let repeat = [(false, 22), (true, 500_000), (false, 360), (true, 90)];
    cmds.extend(collect_nec(&mut d, &repeat));
    assert_eq!(cmds.len(), 2);
    assert_eq!(
        cmds[1],
        DecodedCommand { protocol: ProtocolId::Nec, address: 0x12, data: 0x34, repeat: true }
    );
}

#[test]
fn nec_bare_repeat_yields_nothing() {
    // A repeat frame before any decoded frame reports no command.
    let mut d = NecDecoder::new(NecVariant::Standard, 40_000);
    let events = [(true, 1_000_000), (false, 360), (true, 90)];
    let cmds = collect_nec(&mut d, &events);
    assert!(cmds.is_empty());
}

#[test]
fn rc5_frame_decodes() {
    // Start bits 1 1, toggle 0, address 5, command 3.
    let bits: u16 = (0b11 << 12) | (5 << 6) | 3;
    let mut d = Rc5Decoder::new(40_000);
    let mut cmds = Vec::new();
    for (rising, dt) in rc5_events(bits) {
        if let Some(c) = d.event_total(rising, dt) {
            cmds.push(c);
        }
    }
    assert_eq!(cmds.len(), 1);
    assert_eq!(
        cmds[0],
        DecodedCommand { protocol: ProtocolId::Rc5, address: 5, data: 3, repeat: false }
    );
}

#[test]
fn rc5_toggle_reported_as_repeat() {
    let bits: u16 = (0b11 << 12) | (1 << 11) | (5 << 6) | 3;
    let mut d = Rc5Decoder::new(40_000);
    let mut cmds = Vec::new();
    for (rising, dt) in rc5_events(bits) {
        if let Some(c) = d.event_total(rising, dt) {
            cmds.push(c);
        }
    }
    assert_eq!(cmds.len(), 1);
    assert!(cmds[0].repeat);
}

#[test]
fn rc6_frame_decodes() {
    let data: u16 = 0x374B;
    let mut d = Rc6Decoder::new(40_000);
    let mut cmds = Vec::new();
    for (rising, dt) in rc6_events(data, false) {
        if let Some(c) = d.event_total(rising, dt) {
            cmds.push(c);
        }
    }
    assert_eq!(cmds.len(), 1);
    assert_eq!(
        cmds[0],
        DecodedCommand { protocol: ProtocolId::Rc6, address: 0x37, data: 0x4B, repeat: false }
    );
}

#[test]
fn sbp_frame_decodes() {
    // Address 0x1234, command 0x5A with its complement, low four bits clear.
    let addr: u16 = 0x1234;
    let cmd: u32 = 0x5A;
    let cmdword: u32 = (cmd << 4) | ((cmd ^ 0xFF) << 12);
    let mut intervals: Vec<u32> = vec![180, 180];
    for i in 0..16 {
        intervals.push(20);
        intervals.push(if (addr >> i) & 1 == 1 { 60 } else { 20 });
    }
    // Divider pause.
    intervals.push(20);
    intervals.push(180);
    for i in 0..20 {
        intervals.push(20);
        intervals.push(if (cmdword >> i) & 1 == 1 { 60 } else { 20 });
    }
    let mut d = SbpDecoder::new(40_000);
    let mut cmds = Vec::new();
    for (rising, dt) in frame_events(&intervals) {
        if let Some(c) = d.event_total(rising, dt) {
            cmds.push(c);
        }
    }
    assert_eq!(cmds.len(), 1);
    assert_eq!(
        cmds[0],
        DecodedCommand { protocol: ProtocolId::Sbp, address: 0x1234, data: 0x5A, repeat: false }
    );
}

#[test]
fn cross_protocol_independence() {
    // An RC-5 frame through a dispatcher holding every decoder: the RC-5
    // decoder completes, the NEC decoder ends idle, and nothing else
    // reports a command.
    let bits: u16 = (0b11 << 12) | (9 << 6) | 44;
    let mut d = Decoders::new(40_000);
    let events = rc5_events(bits);
    let cmds = d.feed(&events);
    assert_eq!(cmds.len(), 1);
    assert_eq!(
        cmds[0],
        DecodedCommand { protocol: ProtocolId::Rc5, address: 9, data: 44, repeat: false }
    );
    assert_eq!(d.nec.state_shape(), DecoderState::Idle);
    assert_eq!(d.samsung.state_shape(), DecoderState::Idle);
    assert_eq!(d.sbp.state_shape(), DecoderState::Idle);
}

#[test]
fn malformed_frame_recovery() {
    // Truncate a valid NEC frame at the fifth bit, then immediately send a
    // fresh valid frame: the second frame must still decode.
    let first = nec_encode(NecVariant::Standard, 0x11, 0x22, 40_000);
    let second = nec_encode(NecVariant::Standard, 0x12, 0x34, 40_000);

    let mut events = frame_events(&first[..12]);
    // The fifth bit's mark ends, then a long gap, then the fresh frame.
    events.push((false, 22));
    events.push((true, 500_000));
    for (j, &dt) in second.iter().enumerate() {
        events.push((j % 2 == 1, dt));
    }

    let mut d = Decoders::new(40_000);
    let cmds = d.feed(&events);
    // A standard frame also satisfies the 16-bit-address variant, whose
    // validation only checks the command complement; the dispatcher
    // reports both and leaves the choice to the caller.
    assert_eq!(cmds.len(), 2);
    assert_eq!(
        cmds[0],
        DecodedCommand { protocol: ProtocolId::Nec, address: 0x12, data: 0x34, repeat: false }
    );
    assert_eq!(
        cmds[1],
        DecodedCommand { protocol: ProtocolId::Nec16, address: 0xED12, data: 0x34, repeat: false }
    );
}

#[test]
fn dispatcher_decodes_nec_buffer_replay() {
    // A finalized capture buffer replays through the dispatcher: the
    // intervals of a NEC frame, led by the idle gap, alternate rising
    // first.
    let intervals = nec_encode(NecVariant::Standard, 0x55, 0xAA, 40_000);
    let mut edges: Vec<u16> = vec![10_000];
    for &d in &intervals {
        edges.push(d as u16);
    }
    let mut d = Decoders::new(40_000);
    let cmds = d.run(&edges);
    assert_eq!(cmds.len(), 2);
    assert_eq!(
        cmds[0],
        DecodedCommand { protocol: ProtocolId::Nec, address: 0x55, data: 0xAA, repeat: false }
    );
    assert_eq!(
        cmds[1],
        DecodedCommand { protocol: ProtocolId::Nec16, address: 0xAA55, data: 0xAA, repeat: false }
    );
}
