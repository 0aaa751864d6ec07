//! The value model: the tagged union every renderer function consumes and
//! produces, the convergence signal, and the render-level error taxonomy.

use vstd::prelude::*;

verus! {

/// A datum flowing through the renderer.
///
/// Values are created fresh on every function invocation and immediately
/// consumed by the host evaluator: substituted into the rendered document, or
/// fed back as the `old_output` of the same occurrence on the next pass.
///
/// `Null` is the absent marker: "no prior output yet". It must never reach
/// text concatenation; there it signals an unresolved upstream value and is
/// reported as [`Error::UnresolvedValue`].
#[derive(Debug)]
pub enum Value {
    /// The absent marker: a function that has not yet produced real output.
    Null,
    /// A piece of text.
    Text(String),
    /// A single character.
    Char(char),
    /// An unsigned integer; rendered in decimal by concatenation.
    Usize(usize),
    /// A boolean; rendered as `true` or `false` by concatenation.
    Bool(bool),
    /// An ordered, heterogeneous sequence of values.
    List(Vec<Value>),
    /// The extension slot for the document flavour's own payloads.
    Custom(CustomValue),
}

/// Flavour-specific payloads used by the citation resolver.
#[derive(Debug, Clone)]
pub enum CustomValue {
    /// A list of raw citation keys.
    CiteList(Vec<String>),
    /// A pending citation carrying its ordinal index, fed back between the
    /// collection pass and the formatting pass.
    Citation(usize),
}

/// The convergence signal accompanying every stateful function's output.
///
/// The host evaluator must schedule another full pass over the document if
/// and only if at least one invocation of the just-completed pass returned
/// `Waiting`; the render is done when a full pass yields `Ready` everywhere.
#[derive(Debug, Clone, Copy, PartialEq, Eq, Structural)]
pub enum Dirty {
    /// This value is provisional; call me again next pass with it fed back.
    Waiting,
    /// This value is final for this occurrence.
    Ready,
}

/// The error taxonomy. Every kind aborts the current render immediately;
/// none is retried, since a retry would re-run side-effecting external
/// processes or re-enter already-mutated render state.
#[derive(Debug, Clone, Copy, PartialEq, Eq, Structural)]
pub enum Error {
    /// A function was given the wrong number of arguments.
    InvalidArgCount,
    /// A function was given an argument of the wrong value kind.
    InvalidArgType,
    /// The absent marker reached concatenation: an unresolved upstream value.
    UnresolvedValue,
    /// A stateful function saw a (state, old_output) combination its state
    /// machine does not recognize: the host broke the feedback contract.
    ProtocolViolation,
    /// Required configuration (the bibliography path) is missing.
    MissingEnvVar,
    /// An external process could not be spawned or exited with failure.
    ExternalProcess,
    /// A code-execution invocation named a language tag nobody supports.
    UnsupportedLanguage,
}

/// Does the value contain the absent marker, at top level or inside a list?
pub open spec fn contains_null(v: Value) -> bool
    decreases v,
{
    match v {
        Value::Null => true,
        Value::List(l) => list_contains_null(l@),
        _ => false,
    }
}

/// Does any value of the sequence contain the absent marker?
pub open spec fn list_contains_null(s: Seq<Value>) -> bool
    decreases s,
{
    if s.len() == 0 {
        false
    } else {
        contains_null(s[0]) || list_contains_null(s.drop_first())
    }
}

/// Does the value contain a flavour-specific payload, at top level or inside
/// a list? Concatenation has no textual rendering for those.
pub open spec fn contains_custom(v: Value) -> bool
    decreases v,
{
    match v {
        Value::Custom(_) => true,
        Value::List(l) => list_contains_custom(l@),
        _ => false,
    }
}

/// Does any value of the sequence contain a flavour-specific payload?
pub open spec fn list_contains_custom(s: Seq<Value>) -> bool
    decreases s,
{
    if s.len() == 0 {
        false
    } else {
        contains_custom(s[0]) || list_contains_custom(s.drop_first())
    }
}

/// The decimal digit character for `n` (meaningful for `0 <= n <= 9`).
pub open spec fn spec_digit(n: int) -> char {
    if n == 0 {
        '0'
    } else if n == 1 {
        '1'
    } else if n == 2 {
        '2'
    } else if n == 3 {
        '3'
    } else if n == 4 {
        '4'
    } else if n == 5 {
        '5'
    } else if n == 6 {
        '6'
    } else if n == 7 {
        '7'
    } else if n == 8 {
        '8'
    } else {
        '9'
    }
}

/// The canonical decimal rendering of `n`, most significant digit first.
pub open spec fn spec_decimal(n: nat) -> Seq<char>
    decreases n,
{
    if n < 10 {
        seq![spec_digit(n as int)]
    } else {
        spec_decimal(n / 10).push(spec_digit((n % 10) as int))
    }
}

/// The textual rendering of one value, as concatenation produces it.
/// Meaningful only for values free of `Null` and `Custom`.
pub open spec fn render_one(v: Value) -> Seq<char>
    decreases v,
{
    match v {
        Value::Null => Seq::empty(),
        Value::Text(s) => s@,
        Value::Char(c) => seq![c],
        Value::Usize(x) => spec_decimal(x as nat),
        Value::Bool(b) => if b {
            seq!['t', 'r', 'u', 'e']
        } else {
            seq!['f', 'a', 'l', 's', 'e']
        },
        Value::List(l) => render_list(l@),
        Value::Custom(_) => Seq::empty(),
    }
}

/// The concatenated textual rendering of a sequence of values.
pub open spec fn render_list(s: Seq<Value>) -> Seq<char>
    decreases s,
{
    if s.len() == 0 {
        Seq::empty()
    } else {
        render_one(s[0]) + render_list(s.drop_first())
    }
}

/// Is the value a piece of text?
pub open spec fn is_text(v: Value) -> bool {
    v matches Value::Text(_)
}

/// The character sequence of a text value (empty for any other kind).
pub open spec fn text_view(v: Value) -> Seq<char> {
    match v {
        Value::Text(s) => s@,
        _ => Seq::empty(),
    }
}

} // verus!
