use procon_core::channel::{Channel, ChannelPhase, CommError};
use procon_core::procon::NsProcon;
use procon_core::state::BUTTON_A;

#[test]
fn open_failure_surfaces_device_unavailable() {
    let mut p = NsProcon::create("/dev/hidg0", [0, 0, 255]);
    let r = p.start_comms(false);
    assert_eq!(r, Err(CommError::DeviceUnavailable));
    assert!(!p.is_streaming());
    // Still Idle: a later successful open may begin the handshake.
    assert_eq!(p.channel.phase, ChannelPhase::Idle);
    let r = p.start_comms(true);
    assert_eq!(r, Ok(()));
    assert_eq!(p.channel.phase, ChannelPhase::Handshaking);
}

#[test]
fn handshake_failure_surfaces_handshake_failed() {
    let mut p = NsProcon::create("/dev/hidg0", [0, 0, 255]);
    p.start_comms(true).unwrap();
    let r = p.handshake_sent(false);
    assert_eq!(r, Err(CommError::HandshakeFailed));
    assert_eq!(p.channel.phase, ChannelPhase::Stopped);
}

#[test]
fn sequence_increments_once_per_successful_transmit() {
    let mut p = NsProcon::create("/dev/hidg0", [0, 0, 255]);
    p.start_comms(true).unwrap();
    p.handshake_sent(true).unwrap();
    let initial = p.channel.sequence;
    for k in 0..600u32 {
        let r = p.next_report();
        assert_eq!(u32::from(r[1]), (u32::from(initial) + k) % 256);
        p.report_sent(true).unwrap();
    }
    assert!(p.is_streaming());
}

#[test]
fn sequence_wraps_after_255() {
    let mut c = Channel { phase: ChannelPhase::Streaming, sequence: 255 };
    c.report_sent(true).unwrap();
    assert_eq!(c.sequence, 0);
    assert_eq!(c.phase, ChannelPhase::Streaming);
}

#[test]
fn stop_is_idempotent() {
    let mut p = NsProcon::create("/dev/hidg0", [9, 9, 9]);
    p.start_comms(true).unwrap();
    p.handshake_sent(true).unwrap();
    p.stop();
    assert_eq!(p.channel.phase, ChannelPhase::Stopped);
    let seq = p.channel.sequence;
    p.stop();
    assert_eq!(p.channel.phase, ChannelPhase::Stopped);
    assert_eq!(p.channel.sequence, seq);
}

#[test]
fn end_to_end_press_reaches_the_next_report() {
    let mut p = NsProcon::create("/tmp/fakehid", [255, 0, 0]);
    p.start_comms(true).unwrap();
    let h = p.handshake_report();
    assert_eq!(&h[2..5], &[255, 0, 0]);
    p.handshake_sent(true).unwrap();

    // First tick: nothing pressed yet.
    let first = p.next_report();
    assert_eq!(first[3] & 0x08, 0);
    let prior_seq = first[1];
    p.report_sent(true).unwrap();

    // Input arrives between ticks.
    p.press(BUTTON_A, true);

    // Next tick: the A bit is set and the sequence byte has advanced.
    let second = p.next_report();
    assert_eq!(second[3] & 0x08, 0x08);
    assert_eq!(second[1], prior_seq.wrapping_add(1));
}

#[test]
fn transmit_failure_halts_the_stream() {
    let mut p = NsProcon::create("/tmp/fakehid", [255, 0, 0]);
    p.start_comms(true).unwrap();
    p.handshake_sent(true).unwrap();
    let r = p.next_report();
    assert_eq!(r[1], 0);
    // The device became unwritable: the write outcome comes back false.
    let res = p.report_sent(false);
    assert_eq!(res, Err(CommError::TransmitFailed));
    // The loop observes the stopped channel and writes nothing further.
    assert!(!p.is_streaming());
    assert_eq!(p.channel.phase, ChannelPhase::Stopped);
    // The sequence counter did not advance for the failed write.
    assert_eq!(p.channel.sequence, 0);
}

#[test]
fn mutation_still_succeeds_after_failure() {
    let mut p = NsProcon::create("/tmp/fakehid", [1, 2, 3]);
    p.start_comms(true).unwrap();
    p.handshake_sent(true).unwrap();
    let _ = p.report_sent(false);
    // Fire-and-forget input after the transmit side died: no panic, state taken.
    p.press(BUTTON_A, true);
    p.set_axis(0, 1000);
    p.release(BUTTON_A);
}

#[test]
fn create_never_fails_and_defers_io() {
    let p = NsProcon::create("/definitely/not/a/device", [4, 5, 6]);
    assert_eq!(p.channel.phase, ChannelPhase::Idle);
    assert_eq!(p.channel.sequence, 0);
    assert_eq!(p.path(), "/definitely/not/a/device");
}
