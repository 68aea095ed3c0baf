use bendq::stats::{format_stats, ProgressStats};

#[test]
fn throughput_line_for_two_seconds() {
    let stats = ProgressStats { read_rows: 1_000_000, read_bytes: 2_000_000 };
    let line = format_stats(&stats, 2000).unwrap();
    assert_eq!(
        line,
        "read rows: 1,000,000, read bytes: 2 MB, rows/sec: 500,000 (rows/sec), bytes/sec: 1 (MB/sec)"
    );
}

#[test]
fn zero_elapsed_time_reports_nothing() {
    let stats = ProgressStats { read_rows: 10, read_bytes: 10 };
    assert_eq!(format_stats(&stats, 0), None);
}

#[test]
fn zero_counters_format() {
    let stats = ProgressStats { read_rows: 0, read_bytes: 0 };
    let line = format_stats(&stats, 1000).unwrap();
    assert_eq!(
        line,
        "read rows: 0, read bytes: 0 B, rows/sec: 0 (rows/sec), bytes/sec: 0 (B/sec)"
    );
}

#[test]
fn rates_truncate_to_whole_units() {
    // 999 rows over 2 s -> 499 rows/sec, truncated.
    let stats = ProgressStats { read_rows: 999, read_bytes: 1999 };
    let line = format_stats(&stats, 2000).unwrap();
    assert!(line.contains("rows/sec: 499 (rows/sec)"), "{line}");
}

#[test]
fn digit_grouping_matches_locale_en() {
    let stats = ProgressStats { read_rows: 1_234_567_890, read_bytes: 0 };
    let line = format_stats(&stats, 1000).unwrap();
    assert!(line.starts_with("read rows: 1,234,567,890, "), "{line}");
}

#[test]
fn byte_rate_saturates_at_the_counter_limit() {
    // u64::MAX bytes in one millisecond would overflow the byte counter;
    // the rate is held at the largest representable count instead.
    let stats = ProgressStats { read_rows: u64::MAX, read_bytes: u64::MAX };
    let line = format_stats(&stats, 1).unwrap();
    // Rows are reported exactly: MAX * 1000.
    assert!(line.contains("rows/sec: 18,446,744,073,709,551,615,000 (rows/sec)"), "{line}");
    // The saturated byte rate scales to exabytes.
    assert!(line.ends_with("(EB/sec)"), "{line}");
}
