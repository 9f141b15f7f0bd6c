use cloudapps::output::table::{format_timestamp, rendered_or_invalid, table_row, truncate, try_truncate};
use cloudapps::output::OutputFormat;

#[test]
fn test_format_timestamp() {
    assert_eq!(format_timestamp(Some(1700000000000)), "2023-11-14T22:13:20Z");
}

#[test]
fn test_format_timestamp_none() {
    assert_eq!(format_timestamp(None), "-");
}

#[test]
fn format_timestamp_edges() {
    assert_eq!(format_timestamp(Some(0)), "1970-01-01T00:00:00Z");
    assert_eq!(format_timestamp(Some(1700000000999)), "2023-11-14T22:13:20Z");
    assert_eq!(format_timestamp(Some(-1000)), "1969-12-31T23:59:59Z");
    assert_eq!(format_timestamp(Some(-1)), "1969-12-31T23:59:59Z");
    assert_eq!(format_timestamp(Some(-1500)), "1969-12-31T23:59:58Z");
    assert_eq!(format_timestamp(Some(i64::MIN)), "INVALID");
    assert_eq!(format_timestamp(Some(i64::MAX)), "INVALID");
}

#[test]
fn test_truncate() {
    assert_eq!(truncate("hello", 10), "hello");
    assert_eq!(truncate("hello world!", 8), "hello...");
}

#[test]
fn test_truncate_short() {
    assert_eq!(truncate("ab", 2), "ab");
}

#[test]
fn truncate_small_limits_cut_without_ellipsis() {
    assert_eq!(truncate("abcdef", 3), "abc");
    assert_eq!(truncate("abcdef", 0), "");
}

#[test]
fn try_truncate_refuses_to_split_a_character() {
    assert_eq!(try_truncate("h\u{e9}llo world", 6), Some("h\u{e9}...".to_string()));
    assert_eq!(try_truncate("h\u{e9}llo world", 5), None);
    assert_eq!(try_truncate("\u{e9}\u{e9}\u{e9}\u{e9}", 6), None);
    assert_eq!(try_truncate("\u{e9}\u{e9}\u{e9}\u{e9}", 5), Some("\u{e9}...".to_string()));
    assert_eq!(try_truncate("short", 10), Some("short".to_string()));
}

#[test]
fn rows_pad_each_column() {
    let cells = vec!["ID".to_string(), "NAME".to_string()];
    assert_eq!(table_row(&cells, &vec![4, 6]), "ID   NAME  ");
    let cells = vec!["toolong".to_string(), "x".to_string()];
    assert_eq!(table_row(&cells, &vec![3, 1]), "toolong x");
}

#[test]
fn only_json_minify_minifies() {
    assert!(OutputFormat::JsonMinify.is_minify());
    assert!(!OutputFormat::Json.is_minify());
    assert!(!OutputFormat::Table.is_minify());
}

#[test]
fn rendered_timestamps_fall_back_to_invalid() {
    assert_eq!(rendered_or_invalid(None), "INVALID");
    assert_eq!(rendered_or_invalid(Some("2023-11-14T22:13:20Z".to_string())), "2023-11-14T22:13:20Z");
}

#[test]
fn white_space_matches_char_is_whitespace() {
    for u in 0u32..0x3100 {
        if let Some(c) = char::from_u32(u) {
            assert_eq!(cloudapps::text::is_whitespace(c), c.is_whitespace(), "U+{:04X}", u);
        }
    }
    assert!(!cloudapps::text::is_whitespace('\u{feff}'));
}
