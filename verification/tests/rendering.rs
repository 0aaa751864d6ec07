//! Concatenation, length precomputation, decimal rendering, and the
//! blank-line splitting toolkit.

use tetra::text::{nth_part, split_double_newline, text_after_parts, usize_to_string};
use tetra::utility::{recursive_calc_length, recursive_concat};
use tetra::value::{Error, Value};

fn text(s: &str) -> Value {
    Value::Text(s.to_string())
}

fn expect_text(v: &Value) -> &str {
    match v {
        Value::Text(s) => s.as_str(),
        _ => panic!("expected a text value"),
    }
}

#[test]
fn concat_joins_all_kinds() {
    let args = vec![
        text("a"),
        text("b"),
        Value::Usize(12),
        Value::Bool(true),
        Value::Char('x'),
        Value::List(vec![text("y"), Value::Usize(0)]),
    ];
    let r = tetra::utility::concat(&args).unwrap();
    assert_eq!(expect_text(&r), "ab12truexy0");
}

#[test]
fn concat_no_args_is_empty_text() {
    let r = tetra::utility::concat(&[]).unwrap();
    assert_eq!(expect_text(&r), "");
}

#[test]
fn concat_renders_false() {
    let r = tetra::utility::concat(&[Value::Bool(false)]).unwrap();
    assert_eq!(expect_text(&r), "false");
}

#[test]
fn concat_null_argument_fails() {
    let r = tetra::utility::concat(&[text("a"), Value::Null]);
    assert_eq!(r.unwrap_err(), Error::UnresolvedValue);
}

#[test]
fn concat_nested_null_fails() {
    let r = tetra::utility::concat(&[Value::List(vec![text("ok"), Value::Null])]);
    assert_eq!(r.unwrap_err(), Error::UnresolvedValue);
}

#[test]
fn calc_length_totals_the_rendering() {
    let args = vec![text("abc"), Value::Usize(105), Value::Bool(false), Value::Char('q')];
    // "abc" + "105" + "false" + "q"
    assert_eq!(recursive_calc_length(&args).unwrap(), 3 + 3 + 5 + 1);
}

#[test]
fn calc_length_reports_null() {
    let args = vec![text("abc"), Value::Null];
    assert_eq!(recursive_calc_length(&args).unwrap_err(), Error::UnresolvedValue);
}

#[test]
fn recursive_concat_appends_to_buffer() {
    let mut buffer = String::from("pre:");
    recursive_concat(&[text("fix"), Value::Usize(7)], &mut buffer);
    assert_eq!(buffer, "pre:fix7");
}

#[test]
fn usize_renders_in_decimal() {
    assert_eq!(usize_to_string(0), "0");
    assert_eq!(usize_to_string(9), "9");
    assert_eq!(usize_to_string(907), "907");
    assert_eq!(usize_to_string(120043), "120043");
}

#[test]
fn split_separates_entries() {
    let parts = split_double_newline("smith2020\n\ndoe2019\n\n");
    assert_eq!(parts, vec!["smith2020", "doe2019", ""]);
}

#[test]
fn split_empty_is_one_empty_part() {
    assert_eq!(split_double_newline(""), vec![""]);
}

#[test]
fn split_is_leftmost_and_non_overlapping() {
    assert_eq!(split_double_newline("a\n\n\nb"), vec!["a", "\nb"]);
    assert_eq!(split_double_newline("\n\n\n\n"), vec!["", "", ""]);
}

#[test]
fn nth_part_indexes_the_split() {
    let s = "e0\n\ne1\n\nrest";
    assert_eq!(nth_part(s, 0).unwrap(), "e0");
    assert_eq!(nth_part(s, 1).unwrap(), "e1");
    assert_eq!(nth_part(s, 2).unwrap(), "rest");
    assert!(nth_part(s, 3).is_none());
}

#[test]
fn after_parts_keeps_later_separators() {
    let s = "e0\n\ne1\n\nRefs\n\nmore";
    assert_eq!(text_after_parts(s, 2).unwrap(), "Refs\n\nmore");
    assert_eq!(text_after_parts(s, 0).unwrap(), s);
    assert!(text_after_parts(s, 4).is_none());
}
