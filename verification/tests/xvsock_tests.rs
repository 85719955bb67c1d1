use openvmm::xvsock::{
    clipboard_update, elapsed_millis, frame_body_len, frame_header, keeps_connection, parse_vm_cid,
    send_step, should_reconnect, SendAction, SendEvent, WriteOutcome, XVsockEventEnum, FRAME_CAPACITY,
};

#[test]
fn header_is_little_endian_length() {
    assert_eq!(frame_header(0), vec![0, 0, 0, 0]);
    assert_eq!(frame_header(258), vec![2, 1, 0, 0]);
    assert_eq!(frame_header(0x12345678), vec![0x78, 0x56, 0x34, 0x12]);
}

#[test]
fn header_matches_bincode() {
    for n in [0usize, 1, 255, 256, 1000, 65536, 0xdeadbeef] {
        assert_eq!(frame_header(n), bincode::serialize(&(n as u32)).unwrap());
    }
}

#[test]
fn receiver_reads_back_the_framed_length() {
    for n in [0usize, 1, 17, 999, FRAME_CAPACITY] {
        assert_eq!(frame_body_len(&frame_header(n)), Some(n));
    }
}

#[test]
fn oversized_or_short_headers_are_refused() {
    assert_eq!(frame_body_len(&frame_header(1001)), None);
    assert_eq!(frame_body_len(&[1, 0, 0]), None);
    assert_eq!(frame_body_len(&[]), None);
    assert_eq!(frame_body_len(&[5, 0, 0, 0, 9, 9]), Some(5));
}

#[test]
fn reconnect_only_after_the_delay() {
    assert!(!should_reconnect(true, 10_000));
    assert!(!should_reconnect(false, 2000));
    assert!(should_reconnect(false, 2001));
    assert_eq!(elapsed_millis(2, 500_000_000), 2500);
    assert_eq!(elapsed_millis(0, 999_999), 0);
}

#[test]
fn broken_pipe_drops_the_connection() {
    assert!(keeps_connection(WriteOutcome::Written));
    assert!(!keeps_connection(WriteOutcome::BrokenPipe));
    assert!(keeps_connection(WriteOutcome::OtherError));
}

#[test]
fn clipboard_answers() {
    match clipboard_update(Some(vec![104, 105])) {
        XVsockEventEnum::ClipboardUpdateRequest { buf } => assert_eq!(buf, vec![104, 105]),
        other => panic!("unexpected {:?}", other),
    }
    match clipboard_update(None) {
        XVsockEventEnum::ClipboardUpdateRequest { buf } => assert!(buf.is_empty()),
        other => panic!("unexpected {:?}", other),
    }
}

#[test]
fn vm_cid_parses_like_std() {
    for s in ["3", "+3", "", "x", "18446744073709551615", "18446744073709551616", "-3"] {
        assert_eq!(parse_vm_cid(s), s.parse::<u64>().ok(), "input {:?}", s);
    }
}

#[test]
fn send_steps() {
    assert_eq!(send_step(SendEvent::Start { connected: true, elapsed_ms: 0 }), SendAction::Write);
    assert_eq!(send_step(SendEvent::Start { connected: false, elapsed_ms: 2001 }), SendAction::Connect);
    assert_eq!(send_step(SendEvent::Start { connected: false, elapsed_ms: 2000 }), SendAction::ReportNotOpened);
    assert_eq!(send_step(SendEvent::Connected { connected: true }), SendAction::Write);
    assert_eq!(send_step(SendEvent::Connected { connected: false }), SendAction::ReportNotOpened);
    assert_eq!(send_step(SendEvent::Wrote(WriteOutcome::Written)), SendAction::Finish { keep_connection: true });
    assert_eq!(send_step(SendEvent::Wrote(WriteOutcome::BrokenPipe)), SendAction::Finish { keep_connection: false });
    assert_eq!(send_step(SendEvent::Wrote(WriteOutcome::OtherError)), SendAction::Finish { keep_connection: true });
}
