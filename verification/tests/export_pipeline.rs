use telemetry_csv::{
    export_rows, render_line, render_row, validate, LineBuffer, TelemetryRow, Timestamp,
};

fn ts(year: u16, month: u8, day: u8, hour: u8, minute: u8, second: u8) -> Timestamp {
    Timestamp { year, month, day, hour, minute, second }
}

/// One row per id, all on the same day, value text derived from the id.
fn row(id: u64, integrity_failed: bool) -> TelemetryRow {
    TelemetryRow {
        id,
        served_at: ts(2024, 6, 15, 12, 0, (id % 60) as u8),
        integrity_failed,
        value: Some(format!("{id}.5")),
    }
}

#[test]
fn null_value_renders_as_nan_token() {
    let line = render_line(&ts(2024, 3, 5, 7, 8, 9), None);
    assert_eq!(line, "2024-03-05 07:08:09,NaN\n");
    // The token matches how a float NaN prints, so the value column is
    // always a numeric-looking token, never empty.
    assert_eq!(format!("{}", f32::NAN), "NaN");
}

#[test]
fn line_fields_are_zero_padded() {
    let line = render_line(&ts(987, 1, 2, 3, 4, 5), Some(&String::from("42")));
    assert_eq!(line, "0987-01-02 03:04:05,42\n");
}

#[test]
fn line_carries_the_value_text_verbatim() {
    let line = render_line(&ts(2024, 12, 31, 23, 59, 59), Some(&String::from("-12.75")));
    assert_eq!(line, "2024-12-31 23:59:59,-12.75\n");
}

#[test]
fn decimation_two_over_alternating_integrity() {
    // Ids 1..10; every second row (2, 4, 6, 8, 10) passed integrity.
    let rows: Vec<TelemetryRow> = (1..=10).map(|id| row(id, id % 2 == 1)).collect();
    let req = validate(None, Some(2), None, None).unwrap();
    let out = export_rows(&rows, &req);
    let expected: Vec<String> = [2u64, 4, 6, 8, 10]
        .iter()
        .map(|id| format!("2024-06-15 12:00:{id:02},{id}.5\n"))
        .collect();
    assert_eq!(out, expected);
}

#[test]
fn decimation_one_keeps_every_sound_row_once_in_order() {
    let rows: Vec<TelemetryRow> = (1..=6).map(|id| row(id, false)).collect();
    let req = validate(None, Some(1), None, None).unwrap();
    let out = export_rows(&rows, &req);
    assert_eq!(out.len(), 6);
    for (i, id) in (1..=6u64).enumerate() {
        assert_eq!(out[i], format!("2024-06-15 12:00:{id:02},{id}.5\n"));
    }
}

#[test]
fn decimation_three_keeps_only_divisible_ids() {
    let rows: Vec<TelemetryRow> = (1..=10).map(|id| row(id, false)).collect();
    let req = validate(None, Some(3), None, None).unwrap();
    let out = export_rows(&rows, &req);
    let expected: Vec<String> = [3u64, 6, 9]
        .iter()
        .map(|id| format!("2024-06-15 12:00:{id:02},{id}.5\n"))
        .collect();
    assert_eq!(out, expected);
}

#[test]
fn integrity_failed_rows_never_appear() {
    // Rows that failed their integrity check are absent even when every
    // other filter would keep them.
    let rows = vec![row(2, false), row(4, true), row(6, false)];
    let req = validate(None, Some(2), None, None).unwrap();
    let out = export_rows(&rows, &req);
    assert_eq!(out.len(), 2);
    assert!(out.iter().all(|l| !l.contains("4.5")));
}

#[test]
fn no_matching_rows_gives_empty_output() {
    let rows: Vec<TelemetryRow> = (1..=5).map(|id| row(id, false)).collect();
    let req = validate(Some("tension_bat"), Some(1), Some("2030-01-01"), None).unwrap();
    let out = export_rows(&rows, &req);
    assert!(out.is_empty());
}

#[test]
fn reversed_range_gives_empty_output() {
    let rows: Vec<TelemetryRow> = (1..=5).map(|id| row(id, false)).collect();
    let req = validate(None, Some(1), Some("2025-01-01"), Some("2024-01-01")).unwrap();
    let out = export_rows(&rows, &req);
    assert!(out.is_empty());
}

#[test]
fn date_range_bounds_are_inclusive_by_day() {
    let mk = |y, m, d, h| TelemetryRow {
        id: 10,
        served_at: ts(y, m, d, h, 0, 0),
        integrity_failed: false,
        value: None,
    };
    let rows = vec![
        mk(2024, 5, 31, 23), // day before the range
        mk(2024, 6, 1, 0),   // first instant of the start day
        mk(2024, 6, 30, 23), // late on the stop day
        mk(2024, 7, 1, 0),   // day after the range
    ];
    let req = validate(None, Some(1), Some("2024-06-01"), Some("2024-06-30")).unwrap();
    let out = export_rows(&rows, &req);
    assert_eq!(out, vec!["2024-06-01 00:00:00,NaN\n", "2024-06-30 23:00:00,NaN\n"]);
}

#[test]
fn same_request_twice_gives_identical_bytes() {
    let rows: Vec<TelemetryRow> = (1..=9).map(|id| row(id, id % 3 == 0)).collect();
    let req = validate(None, Some(2), None, None).unwrap();
    let first = export_rows(&rows, &req);
    let second = export_rows(&rows, &req);
    assert_eq!(first, second);
}

#[test]
fn render_row_agrees_with_batch_export() {
    let rows: Vec<TelemetryRow> = (1..=10).map(|id| row(id, id % 2 == 1)).collect();
    let req = validate(None, Some(2), None, None).unwrap();
    let streamed: Vec<String> = rows.iter().filter_map(|r| render_row(r, &req)).collect();
    assert_eq!(streamed, export_rows(&rows, &req));
}

#[test]
fn undecodable_timestamp_is_skipped_not_fatal() {
    let mut bad = row(2, false);
    bad.served_at = ts(2024, 13, 40, 25, 61, 61);
    let rows = vec![row(4, false), bad, row(6, false)];
    let req = validate(None, Some(2), None, None).unwrap();
    let out = export_rows(&rows, &req);
    assert_eq!(out.len(), 2);
}

#[test]
fn buffer_hands_lines_out_in_arrival_order() {
    let mut buf = LineBuffer::new(8);
    assert!(buf.is_empty());
    assert!(!buf.is_full());
    assert!(buf.push(String::from("a\n")).is_ok());
    assert!(buf.push(String::from("b\n")).is_ok());
    assert!(buf.push(String::from("c\n")).is_ok());
    assert_eq!(buf.pop().as_deref(), Some("a\n"));
    assert_eq!(buf.pop().as_deref(), Some("b\n"));
    assert_eq!(buf.pop().as_deref(), Some("c\n"));
    assert_eq!(buf.pop(), None);
}

#[test]
fn full_buffer_refuses_and_returns_the_line() {
    let mut buf = LineBuffer::new(2);
    assert!(buf.push(String::from("a\n")).is_ok());
    assert!(buf.push(String::from("b\n")).is_ok());
    assert!(buf.is_full());
    // Backpressure: the producer gets its line back and must wait.
    assert_eq!(buf.push(String::from("c\n")), Err(String::from("c\n")));
    assert_eq!(buf.len(), 2);
    assert_eq!(buf.pop().as_deref(), Some("a\n"));
    assert!(buf.push(String::from("c\n")).is_ok());
    assert_eq!(buf.pop().as_deref(), Some("b\n"));
    assert_eq!(buf.pop().as_deref(), Some("c\n"));
}
