use blipper::blip::{Blip, State, VERSION};
use blipper::capture::{BlipCapturer, Capturer};
use blipper::classify::{scale_us_to_ticks, within_tolerance, PulseSpan};
use blipper::protocol::{Command, Info, Reply};

#[test]
fn tolerance_boundary_accepts_and_rejects() {
    // Exactly expected * (1 + tolerance) is accepted; one tick beyond is not.
    assert!(within_tolerance(420, 400, 5));
    assert!(!within_tolerance(421, 400, 5));
    // The NEC sync total at 40 kHz: 540 ticks with 7% tolerance.
    assert!(within_tolerance(577, 540, 7));
    assert!(!within_tolerance(578, 540, 7));
    // Lower edge.
    assert!(within_tolerance(503, 540, 7));
    assert!(!within_tolerance(502, 540, 7));
}

#[test]
fn span_matches_tolerance_window() {
    let span = PulseSpan::new(540, 7);
    assert_eq!(span.low, 503);
    assert_eq!(span.high, 577);
    assert!(span.contains(503));
    assert!(span.contains(577));
    assert!(!span.contains(502));
    assert!(!span.contains(578));
}

#[test]
fn scaling_microseconds_to_ticks() {
    assert_eq!(scale_us_to_ticks(9000, 40_000), 360);
    assert_eq!(scale_us_to_ticks(4500, 40_000), 180);
    assert_eq!(scale_us_to_ticks(560, 40_000), 22);
    assert_eq!(scale_us_to_ticks(560, 20_000), 11);
    assert_eq!(scale_us_to_ticks(560, 1_000_000), 560);
}

#[test]
fn capturer_records_intervals() {
    let mut c = Capturer::new(40_000);
    assert_eq!(c.timeout, 4_000);
    assert!(c.sample(true, 100).is_none());
    assert!(c.sample(false, 150).is_none());
    assert!(c.sample(true, 250).is_none());
    assert_eq!(c.i, 3);
    assert_eq!(c.buf[0], 100);
    assert_eq!(c.buf[1], 50);
    assert_eq!(c.buf[2], 100);
}

#[test]
fn timeout_flush_after_inactivity() {
    // At samplerate 40000 the timeout is 4000 ticks. A buffer holding 3
    // intervals flushes after 4001 ticks of inactivity, not after 3999.
    let mut c = Capturer::new(40_000);
    c.sample(true, 100);
    c.sample(false, 150);
    c.sample(true, 250);
    assert!(c.sample(true, 250 + 3_999).is_none());
    assert_eq!(c.i, 3);
    let r = c.sample(true, 250 + 4_001);
    match r {
        Some(Reply::CaptureReply { data }) => {
            assert_eq!(data.len, 3);
            assert_eq!(data.samplerate, 40_000);
            assert_eq!(data.bufs[0][0], 100);
            assert_eq!(data.bufs[0][1], 50);
            assert_eq!(data.bufs[0][2], 100);
        }
        _ => panic!("expected a capture reply"),
    }
    assert_eq!(c.i, 0);
}

#[test]
fn capacity_flush_keeps_all_data() {
    // Feeding capacity + 1 edges yields exactly one finalized buffer of
    // length 128, and a fresh buffer accumulating the remainder.
    let mut c = Capturer::new(40_000);
    let mut ts: u32 = 0;
    let mut level = false;
    let mut flushes = 0;
    for k in 0..129u32 {
        ts += 10 + k;
        level = !level;
        if let Some(reply) = c.sample(level, ts) {
            flushes += 1;
            match reply {
                Reply::CaptureReply { data } => {
                    assert_eq!(data.len, 128);
                    // Every recorded interval survives the flush, in order.
                    for i in 0..128u32 {
                        assert_eq!(
                            data.bufs[(i / 32) as usize][(i % 32) as usize],
                            (10 + i) as u16
                        );
                    }
                }
                _ => panic!("expected a capture reply"),
            }
        }
    }
    assert_eq!(flushes, 1);
    assert_eq!(c.i, 1);
}

#[test]
fn interval_wraps_around_timestamp_overflow() {
    let mut c = Capturer::new(40_000);
    c.sample(true, 0xFFFF_FFF0);
    let r = c.sample(false, 0x0000_0010);
    assert!(r.is_none());
    assert_eq!(c.buf[1], 0x20);
}

#[test]
fn chunked_reply_layout() {
    // 33 recorded intervals straddle the first two chunks of the framed
    // reply; the rest stays clear.
    let mut c = Capturer::new(40_000);
    let mut ts: u32 = 0;
    let mut level = false;
    for _ in 0..33 {
        ts += 7;
        level = !level;
        assert!(c.sample(level, ts).is_none());
    }
    let r = c.sample(level, ts + 5_000);
    match r {
        Some(Reply::CaptureReply { data }) => {
            assert_eq!(data.len, 33);
            assert_eq!(data.bufs[0][0], 7);
            assert_eq!(data.bufs[0][31], 7);
            assert_eq!(data.bufs[1][0], 7);
            assert_eq!(data.bufs[1][1], 0);
            assert_eq!(data.bufs[3][31], 0);
            assert_eq!(data.interval_at(32), 7);
        }
        _ => panic!("expected a capture reply"),
    }
}

#[test]
fn firmware_capturer_flushes_like_the_plain_one() {
    // The firmware-side capturer follows the same sample rule: flush
    // whenever the buffer is non-empty and inactivity passes the timeout,
    // even when the last edge landed exactly on tick zero.
    let mut c = BlipCapturer::new(40_000);
    assert!(c.sample(true, 0).is_none());
    assert_eq!(c.cap.i, 1);
    let r = c.sample(true, 50_000);
    match r {
        Some(Reply::CaptureReply { data }) => assert_eq!(data.len, 1),
        _ => panic!("expected a capture reply"),
    }
    assert_eq!(c.cap.i, 0);
    // And the ordinary record-then-timeout path.
    assert!(c.sample(true, 60_000).is_none());
    assert!(c.sample(false, 60_100).is_none());
    let r = c.sample(false, 60_100 + 4_001);
    match r {
        Some(Reply::CaptureReply { data }) => assert_eq!(data.len, 2),
        _ => panic!("expected a capture reply"),
    }
}

#[test]
fn blip_capture_mode_and_replies() {
    let mut b = Blip::new(40_000);
    assert!(matches!(b.handle_command(Command::Capture), Reply::Ack));
    assert!(matches!(b.state, State::CaptureRaw));
    assert!(b.tick(100, true).is_none());
    assert_eq!(b.capturer.i, 1);
    assert!(matches!(b.handle_command(Command::Idle), Reply::Ack));
    assert!(matches!(b.state, State::Idle));
    assert!(b.tick(200, false).is_none());

    match b.handle_command(Command::Info) {
        Reply::Info { info } => {
            assert_eq!(
                info,
                Info { version: VERSION, transmitters: 0, samplerate: 40_000 }
            );
        }
        _ => panic!("expected an info reply"),
    }
}

#[test]
fn blip_capture_resets_capturer() {
    let mut b = Blip::new(40_000);
    b.handle_command(Command::Capture);
    b.tick(100, true);
    b.tick(150, false);
    assert_eq!(b.capturer.i, 2);
    b.handle_command(Command::Capture);
    assert_eq!(b.capturer.i, 0);
    assert!(matches!(b.state, State::CaptureRaw));
}
