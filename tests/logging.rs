use panahon_node::{
    flush_logs, format_line, init_logger, make_record, push_decimal, truncate_message,
    truncate_tag, Level, LevelFilter, LOG_BUFFER_CAPACITY,
};

fn tag_field(line: &str) -> &str {
    let rest = &line[line.find('/').unwrap() + 1..];
    &rest[..rest.find("] ").unwrap()]
}

#[test]
fn empty_logger_drains_nothing() {
    let mut logger = init_logger(LevelFilter::Info);
    assert!(flush_logs(&mut logger, true).is_empty());
}

#[test]
fn drain_keeps_enqueue_order() {
    let mut logger = init_logger(LevelFilter::Trace);
    logger.log(Level::Info, "a", "first", 1_000);
    logger.log(Level::Warn, "b", "second", 2_000);
    logger.log(Level::Error, "c", "third", 3_999);
    let lines = flush_logs(&mut logger, true);
    assert_eq!(
        lines,
        vec![
            "[1] [INFO/a] first\r\n".to_string(),
            "[2] [WARN/b] second\r\n".to_string(),
            "[3] [ERROR/c] third\r\n".to_string(),
        ]
    );
    assert!(flush_logs(&mut logger, true).is_empty());
}

#[test]
fn buffer_never_exceeds_capacity() {
    let mut logger = init_logger(LevelFilter::Info);
    for i in 0..(LOG_BUFFER_CAPACITY + 10) {
        logger.log(Level::Info, "t", &format!("m{}", i), 0);
    }
    let lines = flush_logs(&mut logger, true);
    assert_eq!(lines.len(), LOG_BUFFER_CAPACITY);
    for (i, line) in lines.iter().enumerate() {
        assert_eq!(line, &format!("[0] [INFO/t] m{}\r\n", i));
    }
}

#[test]
fn full_buffer_drops_newest() {
    let mut logger = init_logger(LevelFilter::Info);
    for i in 0..LOG_BUFFER_CAPACITY {
        logger.log(Level::Info, "t", &format!("m{}", i), 0);
    }
    logger.log(Level::Error, "late", "dropped", 5_000);
    let lines = flush_logs(&mut logger, true);
    assert_eq!(lines.len(), LOG_BUFFER_CAPACITY);
    assert_eq!(lines[0], "[0] [INFO/t] m0\r\n");
    assert_eq!(lines[LOG_BUFFER_CAPACITY - 1], "[0] [INFO/t] m63\r\n");
    assert!(lines.iter().all(|l| !l.contains("dropped")));
}

#[test]
fn flush_without_reader_keeps_records() {
    let mut logger = init_logger(LevelFilter::Info);
    logger.log(Level::Info, "net", "kept", 42_000);
    assert!(flush_logs(&mut logger, false).is_empty());
    assert!(flush_logs(&mut logger, false).is_empty());
    assert_eq!(flush_logs(&mut logger, true), vec!["[42] [INFO/net] kept\r\n".to_string()]);
}

#[test]
fn disabled_levels_are_not_staged() {
    let mut logger = init_logger(LevelFilter::Warn);
    assert!(logger.enabled(Level::Error));
    assert!(logger.enabled(Level::Warn));
    assert!(!logger.enabled(Level::Info));
    logger.log(Level::Info, "x", "quiet", 0);
    logger.log(Level::Debug, "x", "quiet", 0);
    logger.log(Level::Warn, "x", "loud", 0);
    assert_eq!(flush_logs(&mut logger, true), vec!["[0] [WARN/x] loud\r\n".to_string()]);
    let mut off = init_logger(LevelFilter::Off);
    off.log(Level::Error, "x", "nothing", 0);
    assert!(flush_logs(&mut off, true).is_empty());
}

#[test]
fn long_tag_gets_ellipsis() {
    let tag = "a".repeat(40);
    let t = truncate_tag(&tag);
    assert_eq!(t, format!("{}...", "a".repeat(28)));
    assert!(t.ends_with("..."));
}

#[test]
fn tag_at_cap_is_kept() {
    let tag = "b".repeat(32);
    assert_eq!(truncate_tag(&tag), tag);
    assert_eq!(truncate_tag("ok"), "ok");
    assert_eq!(truncate_tag(""), "");
    let over = "c".repeat(33);
    assert_eq!(truncate_tag(&over), format!("{}...", "c".repeat(28)));
}

#[test]
fn long_message_is_cut_without_marker() {
    let msg = "x".repeat(100);
    assert_eq!(truncate_message(&msg), "x".repeat(64));
    let exact = "y".repeat(64);
    assert_eq!(truncate_message(&exact), exact);
    assert_eq!(truncate_message("short"), "short");
}

#[test]
fn tags_end_to_end() {
    let mut logger = init_logger(LevelFilter::Info);
    logger.log(Level::Info, &"a".repeat(40), "one", 0);
    logger.log(Level::Info, "ok", "two", 0);
    let lines = flush_logs(&mut logger, true);
    assert_eq!(lines.len(), 2);
    let first = tag_field(&lines[0]);
    assert!(first.ends_with("..."));
    assert_eq!(first, format!("{}...", "a".repeat(28)));
    assert_eq!(tag_field(&lines[1]), "ok");
}

#[test]
fn decimal_digits() {
    let mut s = String::from("t=");
    push_decimal(&mut s, 0);
    assert_eq!(s, "t=0");
    let mut s = String::new();
    push_decimal(&mut s, 1_234_567);
    assert_eq!(s, "1234567");
    let mut s = String::new();
    push_decimal(&mut s, u64::MAX);
    assert_eq!(s, u64::MAX.to_string());
}

#[test]
fn record_formats_as_one_line() {
    let r = make_record(Level::Debug, "sensor", "hello", 123_456_789);
    assert_eq!(r.time_ms, 123_456);
    assert_eq!(format_line(&r), "[123456] [DEBUG/sensor] hello\r\n");
    let r = make_record(Level::Trace, "t", "m", 999);
    assert_eq!(format_line(&r), "[0] [TRACE/t] m\r\n");
}

#[test]
fn level_names() {
    assert_eq!(Level::Error.as_str(), "ERROR");
    assert_eq!(Level::Warn.as_str(), "WARN");
    assert_eq!(Level::Info.as_str(), "INFO");
    assert_eq!(Level::Debug.as_str(), "DEBUG");
    assert_eq!(Level::Trace.as_str(), "TRACE");
    assert!(LevelFilter::Trace.admits(Level::Trace));
    assert!(!LevelFilter::Error.admits(Level::Warn));
}

#[test]
fn caps_count_utf8_bytes() {
    // 17 two-byte characters are 34 bytes: over the tag cap.
    let tag = "é".repeat(17);
    assert_eq!(truncate_tag(&tag), format!("{}...", "é".repeat(14)));
    // 16 of them are exactly 32 bytes: kept whole.
    assert_eq!(truncate_tag(&"é".repeat(16)), "é".repeat(16));
    // A three-byte character that would cross byte 28 is left out.
    let euro = truncate_tag(&"€".repeat(12));
    assert_eq!(euro, format!("{}...", "€".repeat(9)));
    assert!(euro.len() <= 32);
    // 33 two-byte characters are 66 bytes: cut to 64.
    assert_eq!(truncate_message(&"é".repeat(33)), "é".repeat(32));
    let mixed = format!("ab{}", "€".repeat(30));
    assert_eq!(truncate_message(&mixed), format!("ab{}", "€".repeat(20)));
    assert_eq!(truncate_message(&"é".repeat(32)), "é".repeat(32));
}

#[test]
fn staged_records_keep_byte_caps() {
    let mut logger = init_logger(LevelFilter::Info);
    logger.log(Level::Info, &"ü".repeat(40), &"ö".repeat(50), 0);
    let lines = flush_logs(&mut logger, true);
    assert_eq!(lines.len(), 1);
    let tag = tag_field(&lines[0]);
    assert_eq!(tag, format!("{}...", "ü".repeat(14)));
    assert!(tag.len() <= 32);
    let msg = &lines[0][lines[0].find("] ").unwrap() + 2..];
    let msg = &msg[msg.find("] ").unwrap() + 2..msg.len() - 2];
    assert_eq!(msg, "ö".repeat(32));
}
