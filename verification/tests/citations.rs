//! The citation resolver's three-pass round trip, the references
//! aggregator, and the protocol-violation and argument errors.

use tetra::markup::{cite, cite_finish, references, CiteOutcome};
use tetra::state::{new_render_state, Variables};
use tetra::value::{CustomValue, Dirty, Error, Value};

fn text(s: &str) -> Value {
    Value::Text(s.to_string())
}

fn expect_done(r: Result<CiteOutcome, Error>) -> (Dirty, Value) {
    match r.unwrap() {
        CiteOutcome::Done(d, v) => (d, v),
        _ => panic!("expected a finished invocation"),
    }
}

fn expect_usize(v: &Value) -> usize {
    match v {
        Value::Usize(x) => *x,
        _ => panic!("expected an integer value"),
    }
}

fn expect_pending(v: &Value) -> usize {
    match v {
        Value::Custom(CustomValue::Citation(i)) => *i,
        _ => panic!("expected a pending citation"),
    }
}

fn expect_text(v: &Value) -> &str {
    match v {
        Value::Text(s) => s.as_str(),
        _ => panic!("expected a text value"),
    }
}

/// Two occurrences, raw keys "smith2020" then "doe2019": counting pass,
/// collection pass, one external formatting run, serving pass, and the
/// reference list after all entries.
#[test]
fn round_trip_two_citations() {
    let mut st = new_render_state();
    let a = [text("smith2020")];
    let b = [text("doe2019")];

    // Pass 1: count.
    let (d, v) = expect_done(cite(&a, Value::Null, &mut st));
    assert_eq!(d, Dirty::Waiting);
    assert_eq!(expect_usize(&v), 0);
    let (d, v) = expect_done(cite(&b, Value::Null, &mut st));
    assert_eq!(d, Dirty::Waiting);
    assert_eq!(expect_usize(&v), 1);

    // Pass 2: collect the raw keys into the buffer.
    let (d, v) = expect_done(cite(&a, Value::Usize(0), &mut st));
    assert_eq!(d, Dirty::Waiting);
    assert_eq!(expect_pending(&v), 0);
    let (d, v) = expect_done(cite(&b, Value::Usize(1), &mut st));
    assert_eq!(d, Dirty::Waiting);
    assert_eq!(expect_pending(&v), 1);

    // Pass 3: the first occurrence asks for the one external formatting run.
    let pending0 = Value::Custom(CustomValue::Citation(0));
    let pending1 = Value::Custom(CustomValue::Citation(1));
    let (citekeys, index) = match cite(&a, pending0, &mut st).unwrap() {
        CiteOutcome::NeedsFormatting { citekeys, index } => (citekeys, index),
        _ => panic!("expected a formatting request"),
    };
    assert_eq!(citekeys, "smith2020\n\ndoe2019\n\n");
    assert_eq!(index, 0);

    // The host runs the formatter; its output replaces the buffer.
    let formatted = "Smith (2020). A study.\n\nDoe (2019). Another.\n\nReferences\nSmith; Doe.";
    let (d, v) = cite_finish(formatted.to_string(), index, &mut st).unwrap();
    assert_eq!(d, Dirty::Ready);
    assert_eq!(expect_text(&v), "Smith (2020). A study.");

    // The second occurrence serves straight from the formatted buffer.
    let (d, v) = expect_done(cite(&b, pending1, &mut st));
    assert_eq!(d, Dirty::Ready);
    assert_eq!(expect_text(&v), "Doe (2019). Another.");

    // The aggregator returns everything after the two entries.
    let (d, v) = references(&[], Value::Null, &mut st).unwrap();
    assert_eq!(d, Dirty::Ready);
    assert_eq!(expect_text(&v), "References\nSmith; Doe.");
}

#[test]
fn references_before_any_citation_waits_with_empty_text() {
    let mut st = new_render_state();
    let (d, v) = references(&[], Value::Null, &mut st).unwrap();
    assert_eq!(d, Dirty::Waiting);
    assert_eq!(expect_text(&v), "");
}

#[test]
fn references_requeries_identically() {
    let mut st = new_render_state();
    let a = [text("smith2020")];
    expect_done(cite(&a, Value::Null, &mut st));
    expect_done(cite(&a, Value::Usize(0), &mut st));
    let (_, index) = match cite(&a, Value::Custom(CustomValue::Citation(0)), &mut st).unwrap() {
        CiteOutcome::NeedsFormatting { citekeys, index } => (citekeys, index),
        _ => panic!("expected a formatting request"),
    };
    cite_finish("Smith (2020).\n\nRefs tail".to_string(), index, &mut st).unwrap();

    let (d1, v1) = references(&[], Value::Null, &mut st).unwrap();
    let (d2, v2) = references(&[], Value::Null, &mut st).unwrap();
    assert_eq!(d1, Dirty::Ready);
    assert_eq!(d2, Dirty::Ready);
    assert_eq!(expect_text(&v1), "Refs tail");
    assert_eq!(expect_text(&v1), expect_text(&v2));
}

#[test]
fn references_with_arguments_fails() {
    let mut st = new_render_state();
    let r = references(&[text("x")], Value::Null, &mut st);
    assert_eq!(r.unwrap_err(), Error::InvalidArgCount);
}

#[test]
fn cite_wrong_arg_count_fails() {
    let mut st = new_render_state();
    assert_eq!(
        cite(&[], Value::Null, &mut st).unwrap_err(),
        Error::InvalidArgCount
    );
    assert_eq!(
        cite(&[text("a"), text("b")], Value::Null, &mut st).unwrap_err(),
        Error::InvalidArgCount
    );
}

#[test]
fn cite_wrong_arg_type_fails() {
    let mut st = new_render_state();
    assert_eq!(
        cite(&[Value::Usize(3)], Value::Null, &mut st).unwrap_err(),
        Error::InvalidArgType
    );
}

#[test]
fn cite_rejects_unrecognized_feedback() {
    // A fed-back boolean is never part of the protocol.
    let mut st = new_render_state();
    let r = cite(&[text("k")], Value::Bool(true), &mut st);
    assert_eq!(r.unwrap_err(), Error::ProtocolViolation);

    // A pending citation cannot be fed back while still counting.
    let mut st2 = new_render_state();
    let r = cite(&[text("k")], Value::Custom(CustomValue::Citation(0)), &mut st2);
    assert_eq!(r.unwrap_err(), Error::ProtocolViolation);
}

#[test]
fn serving_past_the_buffer_fails_cleanly() {
    let mut st = new_render_state();
    let r = cite_finish("only one entry".to_string(), 5, &mut st);
    assert_eq!(r.unwrap_err(), Error::ProtocolViolation);
}

#[test]
fn cite_ordinal_beyond_entries_fails_cleanly() {
    let mut st = new_render_state();
    st.insert(tetra::state::CustomKey::CiteState, Value::Usize(4));
    st.insert(tetra::state::CustomKey::Citations, text("lone entry"));
    let r = cite(
        &[text("k")],
        Value::Custom(CustomValue::Citation(9)),
        &mut st,
    );
    assert_eq!(r.unwrap_err(), Error::ProtocolViolation);
}

#[test]
fn references_with_count_beyond_entries_fails_cleanly() {
    let mut st = new_render_state();
    st.insert(tetra::state::CustomKey::CiteState, Value::Usize(3));
    st.insert(tetra::state::CustomKey::CiteCount, Value::Usize(5));
    st.insert(tetra::state::CustomKey::Citations, text("e0\n\ne1"));
    let r = references(&[], Value::Null, &mut st);
    assert_eq!(r.unwrap_err(), Error::ProtocolViolation);
}

#[test]
fn fresh_render_state_is_empty() {
    let st: Variables = new_render_state();
    assert!(st.get(&tetra::state::CustomKey::Citations).is_none());
    assert!(st.get(&tetra::state::CustomKey::CiteCount).is_none());
    assert!(st.get(&tetra::state::CustomKey::CiteState).is_none());
}
