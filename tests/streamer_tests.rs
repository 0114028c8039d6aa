use pinokio::streamer::{line_text, strip_line_end, LineStreamer, ReadOutcome, StreamKind};

#[test]
fn line_terminators_are_dropped() {
    assert_eq!(strip_line_end(b"abc\n"), b"abc".to_vec());
    assert_eq!(strip_line_end(b"abc\r\n"), b"abc".to_vec());
    assert_eq!(strip_line_end(b"abc"), b"abc".to_vec());
    assert_eq!(strip_line_end(b"abc\r"), b"abc\r".to_vec());
    assert_eq!(strip_line_end(b"\n"), Vec::<u8>::new());
    assert_eq!(strip_line_end(b""), Vec::<u8>::new());
}

#[test]
fn invalid_bytes_are_decoded_leniently() {
    assert_eq!(line_text(&[0x66, 0xff, 0x6f, b'\n']), "f\u{FFFD}o");
    assert_eq!(line_text("héllo\n".as_bytes()), "héllo");
    assert_eq!(line_text(b""), "");
}

#[test]
fn event_names_follow_the_stream() {
    assert_eq!(StreamKind::Stdout.event_name(), "terminal:stdout");
    assert_eq!(StreamKind::Stderr.event_name(), "terminal:stderr");
}

#[test]
fn every_line_is_forwarded_in_order_until_the_end() {
    let mut s = LineStreamer::new(StreamKind::Stdout);
    let mut got: Vec<String> = Vec::new();
    for raw in [&b"one\n"[..], b"two\n", b"three\n"] {
        let e = s.on_read(ReadOutcome::Line(raw.to_vec())).expect("a line is forwarded");
        assert_eq!(e.kind, StreamKind::Stdout);
        got.push(e.text);
    }
    assert!(s.on_read(ReadOutcome::EndOfStream).is_none());
    assert!(!s.open);
    assert!(s.on_read(ReadOutcome::Line(b"late\n".to_vec())).is_none());
    assert_eq!(got, vec!["one", "two", "three"]);
}

#[test]
fn a_read_failure_stops_the_stream_quietly() {
    let mut s = LineStreamer::new(StreamKind::Stderr);
    let e = s.on_read(ReadOutcome::Line(b"warn\r\n".to_vec())).unwrap();
    assert_eq!(e.kind, StreamKind::Stderr);
    assert_eq!(e.text, "warn");
    assert!(s.on_read(ReadOutcome::Failed).is_none());
    assert!(!s.open);
    assert!(s.on_read(ReadOutcome::Line(b"more\n".to_vec())).is_none());
}

#[test]
fn a_last_line_without_terminator_is_forwarded() {
    let mut s = LineStreamer::new(StreamKind::Stdout);
    let e = s.on_read(ReadOutcome::Line(b"tail".to_vec())).unwrap();
    assert_eq!(e.text, "tail");
}
