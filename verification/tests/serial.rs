use tester::serial::{read_string_until, StreamScanner};

fn sensor_patterns() -> (Vec<&'static str>, Vec<&'static str>) {
    (vec!["Connected to SENSOR on 0x4a"], vec!["ERR", "FATAL"])
}

#[test]
fn positive_line_ends_the_scan_with_the_whole_log() {
    let (positive, negative) = sensor_patterns();
    let reads = vec![
        Ok(b"boot...\n".to_vec()),
        Ok(b"[INFO] Connected to SENSOR on 0x4a\n".to_vec()),
    ];
    assert_eq!(
        read_string_until(&reads, positive, negative),
        Ok("boot...\n[INFO] Connected to SENSOR on 0x4a\n".to_string())
    );
}

#[test]
fn negative_line_ends_the_scan_with_a_note() {
    let (positive, negative) = sensor_patterns();
    let reads = vec![Ok(b"[ERR] bus scan failed\n".to_vec())];
    let outcome = read_string_until(&reads, positive, negative);
    let diagnostic = outcome.unwrap_err();
    assert!(diagnostic.ends_with("negative match: [ERR] bus scan failed"));
    assert_eq!(
        diagnostic,
        "[ERR] bus scan failed\nnegative match: [ERR] bus scan failed"
    );
}

#[test]
fn scanner_reports_nothing_until_a_line_is_complete() {
    let (positive, negative) = sensor_patterns();
    let mut scanner = StreamScanner::new(&positive, &negative);
    assert_eq!(scanner.feed(b"Connected to SENSOR"), None);
    assert_eq!(scanner.feed(b" on 0x4a"), None);
    assert_eq!(scanner.line_buffer(), "Connected to SENSOR on 0x4a");
    assert_eq!(
        scanner.feed(b"\nmore"),
        Some(Ok("Connected to SENSOR on 0x4a\nmore".to_string()))
    );
    assert_eq!(scanner.line_buffer(), "more");
    assert_eq!(scanner.full_log(), "Connected to SENSOR on 0x4a\nmore");
}

#[test]
fn positive_pattern_wins_on_a_line_that_holds_both() {
    let mut scanner = StreamScanner::new(&vec!["ready"], &vec!["ERR"]);
    assert_eq!(
        scanner.feed(b"ERR but ready\n"),
        Some(Ok("ERR but ready\n".to_string()))
    );
}

#[test]
fn earlier_line_decides_before_a_later_one() {
    let mut scanner = StreamScanner::new(&vec!["ready"], &vec!["ERR"]);
    assert_eq!(
        scanner.feed(b"ERR first\nready\n"),
        Some(Err("ERR first\nready\nnegative match: ERR first".to_string()))
    );
    assert_eq!(scanner.line_buffer(), "ready\n");
}

#[test]
fn nul_bytes_are_dropped_and_bad_bytes_replaced() {
    let mut scanner = StreamScanner::new(&vec!["ok"], &vec![]);
    assert_eq!(scanner.feed(b"a\0b\xff"), None);
    assert_eq!(scanner.full_log(), "ab\u{fffd}");
    assert_eq!(scanner.feed_text("o\0k\n"), Some(Ok("ab\u{fffd}ok\n".to_string())));
}

#[test]
fn read_error_carries_the_log() {
    let reads = vec![Ok(b"boot\n".to_vec()), Err("timed out".to_string())];
    assert_eq!(
        read_string_until(&reads, vec!["ready"], vec!["ERR"]),
        Err("Lines: boot\n\nError: timed out".to_string())
    );
}

#[test]
fn source_that_runs_dry_fails() {
    let reads: Vec<Result<Vec<u8>, String>> = vec![Ok(b"boot\n".to_vec())];
    assert_eq!(
        read_string_until(&reads, vec!["ready"], vec!["ERR"]),
        Err("Lines: boot\n\nError: end of stream".to_string())
    );
    let mut scanner = StreamScanner::new(&vec!["ready"], &vec!["ERR"]);
    assert_eq!(scanner.feed(b"x"), None);
    assert_eq!(scanner.fail("gone"), "Lines: x\nError: gone");
}

#[test]
fn empty_pattern_matches_every_line() {
    let mut scanner = StreamScanner::new(&vec![""], &vec![]);
    assert_eq!(scanner.feed(b"no newline yet"), None);
    assert_eq!(scanner.feed(b"\n"), Some(Ok("no newline yet\n".to_string())));
}
