use bendq::render::{render_outcome, render_response};
use bendq::response::{Column, QueryResponse};
use bendq::stats::ProgressStats;

fn col(name: &str) -> Column {
    Column { name: name.to_string(), data_type: "Int32".to_string() }
}

fn response(
    columns: Option<Vec<Column>>,
    data: Option<Vec<Vec<String>>>,
    stats: Option<ProgressStats>,
) -> QueryResponse {
    QueryResponse { columns, data, stats }
}

/// The same table built directly with comfy-table, the way the library's
/// rendering is wired: preset, pinned tty handling, green header cells.
fn expected_table(header: Option<Vec<&str>>, rows: Vec<Vec<&str>>) -> String {
    let mut t = comfy_table::Table::new();
    t.force_no_tty();
    t.enforce_styling();
    t.load_preset("||--+-++|    ++++++");
    if let Some(names) = header {
        t.set_header(
            names
                .iter()
                .map(|n| comfy_table::Cell::new(n).fg(comfy_table::Color::Green)),
        );
    }
    for row in rows {
        t.add_row(row.iter().map(comfy_table::Cell::new));
    }
    t.trim_fmt()
}

#[test]
fn table_with_header_and_rows() {
    let resp = response(
        Some(vec![col("number"), col("name")]),
        Some(vec![
            vec!["1".to_string(), "a".to_string()],
            vec!["2".to_string(), "b".to_string()],
        ]),
        None,
    );
    let drawn = render_response(&resp);
    assert_eq!(drawn, expected_table(Some(vec!["number", "name"]), vec![
        vec!["1", "a"],
        vec!["2", "b"],
    ]));
    assert!(drawn.contains("number"));
    assert!(drawn.contains("name"));
    assert!(drawn.contains('1'));
    assert!(drawn.contains('b'));
}

#[test]
fn absent_columns_make_a_headerless_table() {
    let resp = response(None, Some(vec![vec!["42".to_string()]]), None);
    let drawn = render_response(&resp);
    assert_eq!(drawn, expected_table(None, vec![vec!["42"]]));
    assert!(drawn.contains("42"));
}

#[test]
fn absent_rows_make_a_bodyless_table() {
    let resp = response(Some(vec![col("number")]), None, None);
    let drawn = render_response(&resp);
    assert_eq!(drawn, expected_table(Some(vec!["number"]), vec![]));
}

#[test]
fn mismatched_row_widths_render_as_sent() {
    let resp = response(
        Some(vec![col("a"), col("b")]),
        Some(vec![vec!["1".to_string(), "2".to_string(), "3".to_string()]]),
        None,
    );
    let drawn = render_response(&resp);
    assert_eq!(drawn, expected_table(Some(vec!["a", "b"]), vec![vec!["1", "2", "3"]]));
}

#[test]
fn outcome_couples_table_and_stats_line() {
    let resp = response(
        Some(vec![col("number")]),
        Some(vec![vec!["1".to_string()]]),
        Some(ProgressStats { read_rows: 1_000_000, read_bytes: 2_000_000 }),
    );
    let (table, line) = render_outcome(&resp, 2000);
    assert_eq!(table, render_response(&resp));
    assert_eq!(
        line.unwrap(),
        "read rows: 1,000,000, read bytes: 2 MB, rows/sec: 500,000 (rows/sec), bytes/sec: 1 (MB/sec)"
    );
}

#[test]
fn outcome_without_stats_has_no_line() {
    let resp = response(None, None, None);
    let (_, line) = render_outcome(&resp, 2000);
    assert_eq!(line, None);
}

#[test]
fn outcome_with_zero_elapsed_time_has_no_line() {
    let resp = response(None, None, Some(ProgressStats { read_rows: 5, read_bytes: 5 }));
    let (_, line) = render_outcome(&resp, 0);
    assert_eq!(line, None);
}

#[test]
fn empty_column_list_still_draws_a_header_row() {
    // A response whose column list is present but empty sets a header, and
    // the drawn table differs from one with no columns at all.
    let with_empty = response(Some(vec![]), Some(vec![vec!["1".to_string()]]), None);
    let without = response(None, Some(vec![vec!["1".to_string()]]), None);
    let drawn_with = render_response(&with_empty);
    let drawn_without = render_response(&without);
    assert_ne!(drawn_with, drawn_without);
    assert_eq!(drawn_with, expected_table(Some(vec![]), vec![vec!["1"]]));
    assert_eq!(drawn_without, expected_table(None, vec![vec!["1"]]));
}
