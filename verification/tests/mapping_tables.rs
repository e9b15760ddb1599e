//! The `key > value|value` mapping-table parser.

use affix::kv::parse_map;

fn sorted(mut v: Vec<(String, Vec<String>)>) -> Vec<(String, Vec<String>)> {
    v.sort();
    v
}

#[test]
fn mapping_basic() {
    let r = parse_map("a > 1|2\nb > 3\n").expect("parse should succeed");
    assert_eq!(
        sorted(r),
        vec![
            ("a".to_string(), vec!["1".to_string(), "2".to_string()]),
            ("b".to_string(), vec!["3".to_string()]),
        ]
    );
}

#[test]
fn mapping_later_line_wins() {
    let r = parse_map("a > 1\na > 2\n").expect("parse should succeed");
    assert_eq!(r, vec![("a".to_string(), vec!["2".to_string()])]);
}

#[test]
fn mapping_trims_and_skips_blanks() {
    let r = parse_map("  \n  key  >  x |  y \n").expect("parse should succeed");
    assert_eq!(
        r,
        vec![("key".to_string(), vec!["x".to_string(), "y".to_string()])]
    );
}

#[test]
fn mapping_crlf_lines() {
    let r = parse_map("a > 1\r\nb > 2\r\n").expect("parse should succeed");
    assert_eq!(
        sorted(r),
        vec![
            ("a".to_string(), vec!["1".to_string()]),
            ("b".to_string(), vec!["2".to_string()]),
        ]
    );
}

#[test]
fn mapping_bad_line_reports_filtered_index() {
    let e = parse_map("a > 1\n\nbad line\n").expect_err("parse should fail");
    assert_eq!(e, 1);
}

#[test]
fn mapping_empty_input() {
    let r = parse_map("").expect("parse should succeed");
    assert_eq!(r, Vec::<(String, Vec<String>)>::new());
}
