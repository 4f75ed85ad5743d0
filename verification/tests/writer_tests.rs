use cli_io::errors::SinkError;
use cli_io::errors::WriteError;
use cli_io::sink::open_stdout_sink;
use cli_io::sink::select_stdout_sink;
use cli_io::writer::StdoutWriter;
use cli_io::writer::SHORT_OUTPUT_LENGTH;

#[test]
fn cap_is_a_screenful() {
    assert_eq!(SHORT_OUTPUT_LENGTH, 1600);
}

#[test]
fn trailer_message_is_verbatim() {
    let t = cli_io::writer::trailer();
    let expected: &[u8] =
        b"\n[truncated; use a pipe, a redirect, or --output to see full message]\n";
    assert_eq!(t, expected.to_vec());
}

#[test]
fn fresh_writer_state() {
    let w = StdoutWriter::new(true);
    assert_eq!(w.bytes_written(), 0);
    assert!(!w.is_truncated());
    assert!(w.is_interactive());
    let p = StdoutWriter::new(false);
    assert!(!p.is_interactive());
}

#[test]
fn single_oversized_write_truncates_once() {
    // One write of 2000 ASCII bytes: the caller sees 2000 "written", the
    // terminal got exactly the cap, and the writer has truncated.
    let mut w = StdoutWriter::new(true);
    let data = vec![b'a'; 2000];
    let n = w.write(&data).unwrap();
    assert_eq!(n, 2000);
    assert_eq!(w.bytes_written(), 1600);
    assert!(w.is_truncated());
}

#[test]
fn two_writes_straddle_the_cap() {
    // 1000 bytes pass through whole; of the next 1000 only 600 fit, the
    // trailer fires, and the rest is discarded but still reported written.
    let mut w = StdoutWriter::new(true);
    let chunk = vec![b'x'; 1000];
    let n1 = w.write(&chunk).unwrap();
    assert_eq!(n1, 1000);
    assert_eq!(w.bytes_written(), 1000);
    assert!(!w.is_truncated());
    let n2 = w.write(&chunk).unwrap();
    assert_eq!(n2, 1000);
    assert_eq!(w.bytes_written(), 1600);
    assert!(w.is_truncated());
}

#[test]
fn exact_fill_reaches_cap() {
    let mut w = StdoutWriter::new(true);
    let data = vec![b'y'; 1600];
    let n = w.write(&data).unwrap();
    assert_eq!(n, 1600);
    assert_eq!(w.bytes_written(), 1600);
    assert!(w.is_truncated());
}

#[test]
fn truncated_state_is_absorbing() {
    let mut w = StdoutWriter::new(true);
    let data = vec![b'z'; 2000];
    w.write(&data).unwrap();
    assert!(w.is_truncated());
    // Further writes succeed, report full length, and deliver nothing more.
    let n = w.write(b"more text").unwrap();
    assert_eq!(n, 9);
    assert_eq!(w.bytes_written(), 1600);
    assert!(w.is_truncated());
}

#[test]
fn empty_write_changes_nothing() {
    let mut w = StdoutWriter::new(true);
    let n = w.write(b"").unwrap();
    assert_eq!(n, 0);
    assert_eq!(w.bytes_written(), 0);
    assert!(!w.is_truncated());
}

#[test]
fn invalid_utf8_refused_on_terminal() {
    let mut w = StdoutWriter::new(true);
    w.write(b"some text").unwrap();
    let before = w.bytes_written();
    let bad = [0xffu8, 0xfe, b'a'];
    // Fails every time, and the state is untouched by the failure.
    for _ in 0..3 {
        let e = w.write(&bad).unwrap_err();
        assert!(matches!(e, WriteError::UnprintableContent));
        assert_eq!(w.bytes_written(), before);
        assert!(!w.is_truncated());
    }
}

#[test]
fn invalid_utf8_passes_through_off_terminal() {
    let mut w = StdoutWriter::new(false);
    let bad = [0xffu8, 0xfe, b'a'];
    let n = w.write(&bad).unwrap();
    assert_eq!(n, 3);
    assert_eq!(w.bytes_written(), 0);
    assert!(!w.is_truncated());
}

#[test]
fn non_interactive_never_truncates() {
    let mut w = StdoutWriter::new(false);
    let data = vec![b'b'; 5000];
    let n = w.write(&data).unwrap();
    assert_eq!(n, 5000);
    let n2 = w.write(&data).unwrap();
    assert_eq!(n2, 5000);
    assert!(!w.is_truncated());
    assert_eq!(w.bytes_written(), 0);
}

#[test]
fn multibyte_utf8_accepted_on_terminal() {
    let mut w = StdoutWriter::new(true);
    let s = "héllo wörld ✓";
    let n = w.write(s.as_bytes()).unwrap();
    assert_eq!(n, s.len());
    assert_eq!(w.bytes_written(), s.len());
}

#[test]
fn flush_keeps_state() {
    let mut w = StdoutWriter::new(true);
    w.write(b"abc").unwrap();
    w.flush().unwrap();
    assert_eq!(w.bytes_written(), 3);
    assert!(!w.is_truncated());
}

#[test]
fn interactive_denied_is_refused() {
    match select_stdout_sink(true, true) {
        Ok(_) => panic!("an interactive sink must be refused when denied"),
        Err(e) => assert!(matches!(e, SinkError::InteractiveRefused)),
    }
}

#[test]
fn interactive_allowed_is_granted() {
    let w = select_stdout_sink(true, false).unwrap();
    assert!(w.is_interactive());
    assert_eq!(w.bytes_written(), 0);
}

#[test]
fn non_interactive_granted_even_when_denied() {
    let w = select_stdout_sink(false, true).unwrap();
    assert!(!w.is_interactive());
}

#[test]
fn open_sink_without_denial_succeeds() {
    let w = open_stdout_sink(false).unwrap();
    assert!(!w.is_truncated());
    assert_eq!(w.bytes_written(), 0);
}
