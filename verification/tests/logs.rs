use nostrd::logs::{classify_chunk, is_ready_line, pump_next, Pumped};
use nostrd::try_read_line;
use std::io::{BufRead, Cursor};

fn read(reader: &mut Cursor<Vec<u8>>) -> (std::io::Result<usize>, Vec<u8>) {
    let mut buffer = Vec::new();
    let got = reader.read_until(b'\n', &mut buffer);
    (got, buffer)
}

#[test]
fn reads_lines_one_by_one_with_their_newline() {
    let mut reader = Cursor::new(b"first\nsecond\n".to_vec());
    let (got, buffer) = read(&mut reader);
    assert_eq!(try_read_line(got, buffer).unwrap(), Some("first\n".to_string()));
    let (got, buffer) = read(&mut reader);
    assert_eq!(try_read_line(got, buffer).unwrap(), Some("second\n".to_string()));
    let (got, buffer) = read(&mut reader);
    assert_eq!(try_read_line(got, buffer).unwrap(), None);
}

#[test]
fn last_line_without_newline_is_still_read() {
    let mut reader = Cursor::new(b"one\ntail".to_vec());
    let (got, buffer) = read(&mut reader);
    assert_eq!(try_read_line(got, buffer).unwrap(), Some("one\n".to_string()));
    let (got, buffer) = read(&mut reader);
    assert_eq!(try_read_line(got, buffer).unwrap(), Some("tail".to_string()));
}

#[test]
fn empty_stream_gives_no_line() {
    let mut reader = Cursor::new(Vec::new());
    let (got, buffer) = read(&mut reader);
    assert_eq!(try_read_line(got, buffer).unwrap(), None);
}

#[test]
fn bytes_that_are_not_text_are_dropped() {
    let mut reader = Cursor::new(vec![0xff, 0xfe, b'\n', b'o', b'k', b'\n']);
    let (got, buffer) = read(&mut reader);
    assert_eq!(try_read_line(got, buffer).unwrap(), None);
    let (got, buffer) = read(&mut reader);
    assert_eq!(try_read_line(got, buffer).unwrap(), Some("ok\n".to_string()));
}

#[test]
fn text_beyond_ascii_is_decoded() {
    let text = "gr\u{fc}\u{df}e \u{2713}\n";
    assert_eq!(
        try_read_line(Ok(text.len()), text.as_bytes().to_vec()).unwrap(),
        Some(text.to_string())
    );
}

#[test]
fn failed_read_is_handed_on() {
    let failure = std::io::Error::new(std::io::ErrorKind::BrokenPipe, "pipe closed");
    let got = try_read_line(Err(failure), Vec::new());
    assert_eq!(got.unwrap_err().kind(), std::io::ErrorKind::BrokenPipe);
}

#[test]
fn classify_chunk_tells_end_text_and_noise_apart() {
    assert!(matches!(classify_chunk(0, Vec::new()), Pumped::Stop));
    match classify_chunk(3, b"ab\n".to_vec()) {
        Pumped::Forward(line) => assert_eq!(line, "ab\n"),
        other => panic!("unexpected: {:?}", other),
    }
    assert!(matches!(classify_chunk(2, vec![0xc3, 0x28]), Pumped::Skip));
}

#[test]
fn pump_goes_on_after_noise_and_stops_at_the_end() {
    let mut reader = Cursor::new(vec![b'a', b'\n', 0x80, b'\n', b'b']);
    let mut forwarded: Vec<String> = Vec::new();
    let mut skipped = 0;
    loop {
        let (got, buffer) = read(&mut reader);
        match pump_next(got, buffer) {
            Pumped::Forward(line) => forwarded.push(line),
            Pumped::Skip => skipped += 1,
            Pumped::Stop => break,
        }
    }
    assert_eq!(forwarded, vec!["a\n".to_string(), "b".to_string()]);
    assert_eq!(skipped, 1);
}

#[test]
fn pump_stops_on_a_failed_read() {
    let failure = std::io::Error::new(std::io::ErrorKind::Other, "gone");
    assert!(matches!(pump_next(Err(failure), b"partial".to_vec()), Pumped::Stop));
}

#[test]
fn marker_anywhere_in_the_line_announces_readiness() {
    assert!(is_ready_line("control message listener started"));
    assert!(is_ready_line("2024-01-01 DEBUG control message listener started on 8080\n"));
}

#[test]
fn lines_without_the_whole_marker_do_not() {
    assert!(!is_ready_line(""));
    assert!(!is_ready_line("control message listener"));
    assert!(!is_ready_line("Control Message Listener Started"));
    assert!(!is_ready_line("listener started"));
}
