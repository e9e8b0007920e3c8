use blipper::decoder::DecodedCommand;
use blipper::dispatch::Decoders;
use blipper::host::{
    play_vcd, relative_events, samplerate_from_timescale, select_serialport, TimescaleUnit,
};
use blipper::nec::{nec_encode, NecVariant};
use blipper::protocol::ProtocolId;

#[test]
fn timescale_to_samplerate() {
    assert_eq!(samplerate_from_timescale(1, TimescaleUnit::Micro), Some(1_000_000));
    assert_eq!(samplerate_from_timescale(25, TimescaleUnit::Micro), Some(40_000));
    assert_eq!(samplerate_from_timescale(1, TimescaleUnit::Milli), Some(1_000));
    assert_eq!(samplerate_from_timescale(0, TimescaleUnit::Micro), None);
    assert_eq!(samplerate_from_timescale(1, TimescaleUnit::Nano), None);
    assert_eq!(samplerate_from_timescale(1, TimescaleUnit::Second), None);
}

#[test]
fn absolute_changes_become_intervals() {
    let changes: Vec<(u64, bool)> = vec![(100, true), (460, false), (640, true)];
    let events = relative_events(&changes).expect("monotonic changes convert");
    assert_eq!(events, vec![(true, 100), (false, 360), (true, 180)]);
}

#[test]
fn non_monotonic_changes_are_rejected() {
    let changes: Vec<(u64, bool)> = vec![(100, true), (50, false)];
    assert!(relative_events(&changes).is_none());
}

#[test]
fn oversized_gap_is_rejected() {
    let changes: Vec<(u64, bool)> = vec![(100, true), (100 + 0x1_0000_0000, false)];
    assert!(relative_events(&changes).is_none());
}

#[test]
fn vcd_replay_decodes_nec() {
    // Build the absolute-timestamp waveform of a NEC frame and replay it.
    let intervals = nec_encode(NecVariant::Standard, 0x42, 0x24, 40_000);
    let mut changes: Vec<(u64, bool)> = Vec::new();
    let mut t: u64 = 5_000;
    let mut level = true;
    changes.push((t, level));
    for &d in &intervals {
        t += d as u64;
        level = !level;
        changes.push((t, level));
    }
    let mut d = Decoders::new(40_000);
    let cmds = play_vcd(&mut d, &changes).expect("conversion succeeds");
    assert!(cmds.contains(&DecodedCommand {
        protocol: ProtocolId::Nec,
        address: 0x42,
        data: 0x24,
        repeat: false,
    }));
}

#[test]
fn serialport_selection_order() {
    assert_eq!(
        select_serialport(
            Some(String::from("/dev/ttyUSB7")),
            Some(String::from("/dev/ttyACM1")),
            String::from("/dev/ttyACM0"),
        ),
        "/dev/ttyUSB7"
    );
    assert_eq!(
        select_serialport(None, Some(String::from("/dev/ttyACM1")), String::from("/dev/ttyACM0")),
        "/dev/ttyACM1"
    );
    assert_eq!(select_serialport(None, None, String::from("/dev/ttyACM0")), "/dev/ttyACM0");
}

#[test]
fn protocol_id_wire_numbers() {
    let all = [
        (ProtocolId::Nec, 1u8),
        (ProtocolId::Nec16, 2),
        (ProtocolId::NecSamsung, 3),
        (ProtocolId::NecApple, 4),
        (ProtocolId::Rc5, 5),
        (ProtocolId::Rc6, 6),
        (ProtocolId::Sbp, 7),
    ];
    for (p, n) in all {
        assert_eq!(p.as_u8(), n);
        assert_eq!(ProtocolId::from_u8(n), Some(p));
    }
    assert_eq!(ProtocolId::from_u8(0), None);
    assert_eq!(ProtocolId::from_u8(8), None);
}
