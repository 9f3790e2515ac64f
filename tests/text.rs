use schema_tui::text::{chars_of, contains_chars, i64_to_string, parse_i64, trimmed};
use schema_tui::layout::{list_rows, tab_window, ListRow};
use schema_tui::{ConfigValue, ValueMap};

fn cs(s: &str) -> Vec<char> {
    s.chars().collect()
}

#[test]
fn integers_read_like_std() {
    assert_eq!(parse_i64(&cs("42")), Some(42));
    assert_eq!(parse_i64(&cs("+7")), Some(7));
    assert_eq!(parse_i64(&cs("-0")), Some(0));
    assert_eq!(parse_i64(&cs("007")), Some(7));
    assert_eq!(parse_i64(&cs("-9223372036854775808")), Some(i64::MIN));
    assert_eq!(parse_i64(&cs("9223372036854775807")), Some(i64::MAX));
    assert_eq!(parse_i64(&cs("9223372036854775808")), None);
    assert_eq!(parse_i64(&cs("99999999999999999999999")), None);
    assert_eq!(parse_i64(&cs("")), None);
    assert_eq!(parse_i64(&cs("-")), None);
    assert_eq!(parse_i64(&cs("1 ")), None);
    assert_eq!(parse_i64(&cs("--1")), None);
}

#[test]
fn integers_write_like_std() {
    for n in [0i64, 9, 10, -1, 1234567890, i64::MAX, i64::MIN] {
        assert_eq!(i64_to_string(n), n.to_string());
    }
}

#[test]
fn trimming_and_search() {
    assert_eq!(trimmed(&cs("\t a b \u{3000}\n")), cs("a b"));
    assert_eq!(trimmed(&cs("   ")), cs(""));
    assert!(contains_chars(&cs("hello"), &cs("ll")));
    assert!(contains_chars(&cs("hello"), &cs("")));
    assert!(!contains_chars(&cs("hello"), &cs("hello!")));
    assert_eq!(chars_of("héllo"), cs("héllo"));
}

#[test]
fn value_map_overwrites_by_key() {
    let mut m = ValueMap::new();
    m.insert("a.b".to_string(), ConfigValue::Integer(1));
    m.insert("a.c".to_string(), ConfigValue::Bool(false));
    m.insert("a.b".to_string(), ConfigValue::Text("x".to_string()));
    assert_eq!(m.len(), 2);
    assert_eq!(m.get("a.b"), Some(&ConfigValue::Text("x".to_string())));
    assert!(m.contains_key("a.c"));
    assert!(!m.contains_key("a"));
}

#[test]
fn tab_window_shows_all_tabs_that_fit() {
    assert_eq!(tab_window(&vec![5, 5, 5], 1, 15), (0, 3));
}

#[test]
fn tab_window_grows_toward_the_larger_side() {
    let widths = vec![4, 4, 4, 4, 4, 4];
    assert_eq!(tab_window(&widths, 0, 10), (0, 2));
    assert_eq!(tab_window(&widths, 5, 10), (4, 6));
    assert_eq!(tab_window(&widths, 2, 12), (2, 5));
    assert_eq!(tab_window(&vec![3, 20, 3], 1, 10), (1, 2));
}

#[test]
fn field_rows_put_headers_before_new_subsections() {
    let tags = vec![None, Some("A".to_string()), Some("A".to_string()), None, Some("B".to_string())];
    assert_eq!(
        list_rows(&tags),
        vec![
            ListRow::Field(0),
            ListRow::Blank,
            ListRow::Header(1),
            ListRow::Field(1),
            ListRow::Field(2),
            ListRow::Field(3),
            ListRow::Blank,
            ListRow::Header(4),
            ListRow::Field(4),
        ]
    );
    assert_eq!(list_rows(&vec![Some("A".to_string())]), vec![ListRow::Header(0), ListRow::Field(0)]);
}
