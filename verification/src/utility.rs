//! The pure functions every document flavour can use: concatenation, an
//! environment-variable lookup, and code/diagram execution dispatch.
//!
//! Pure functions never see render state and are single-pass: the same
//! arguments give the same output within one pass.

use vstd::prelude::*;
use crate::text::push_char;
use crate::text::str_eq;
use crate::text::usize_to_string;
use crate::value::Error;
use crate::value::Value;
use crate::value::contains_custom;
use crate::value::contains_null;
use crate::value::is_text;
use crate::value::list_contains_custom;
use crate::value::list_contains_null;
use crate::value::render_list;
use crate::value::render_one;
use crate::value::text_view;

verus! {

/// A synchronous external process invocation, described as plain data: the
/// embedding program spawns `program` with `args`, writes `stdin` to it, and
/// reads its standard output. The core only ever describes such calls; it
/// never performs them.
#[derive(Debug)]
pub struct ExternalCommand {
    /// The program to spawn.
    pub program: String,
    /// The text to feed to its standard input.
    pub stdin: String,
    /// The command-line arguments.
    pub args: Vec<String>,
}

/// What a code-execution invocation asks the embedding program to do.
#[derive(Debug)]
pub enum CodeAction {
    /// Substitute this value into the document; no external work is needed.
    Output(Value),
    /// Run this external renderer and substitute its standard output
    /// verbatim.
    Run(ExternalCommand),
}

/// Relies on `String::with_capacity`: returns an empty string.
#[verifier::external_body]
fn string_with_capacity(cap: usize) -> (s: String)
    ensures
        s@ == Seq::<char>::empty(),
{
    String::with_capacity(cap)
}

/// The length, in characters, of the textual rendering of one value, or the
/// unresolved-value error if the absent marker occurs anywhere in it.
fn value_length(v: &Value) -> (r: Result<usize, Error>)
    requires
        !contains_custom(*v),
        render_one(*v).len() <= usize::MAX,
    ensures
        match r {
            Ok(n) => !contains_null(*v) && n == render_one(*v).len(),
            Err(e) => e == Error::UnresolvedValue && contains_null(*v),
        },
    decreases *v,
{
    match v {
        Value::Null => Err(Error::UnresolvedValue),
        Value::Text(s) => Ok(s.as_str().unicode_len()),
        Value::Char(_) => Ok(1),
        Value::Usize(x) => {
            let digits = usize_to_string(*x);
            Ok(digits.as_str().unicode_len())
        },
        Value::Bool(b) => if *b {
            Ok(4)
        } else {
            Ok(5)
        },
        Value::List(l) => recursive_calc_length(l.as_slice()),
        Value::Custom(_) => {
            proof {
                assert(false);
            }
            Err(Error::UnresolvedValue)
        },
    }
}

/// The total length, in characters, of the rendering of all arguments, or the
/// unresolved-value error if the absent marker occurs anywhere in them.
///
/// Concatenation computes this total first, so that an unresolved upstream
/// value fails the whole call before any text is produced.
pub fn recursive_calc_length(args: &[Value]) -> (r: Result<usize, Error>)
    requires
        !list_contains_custom(args@),
        render_list(args@).len() <= usize::MAX,
    ensures
        match r {
            Ok(n) => !list_contains_null(args@) && n == render_list(args@).len(),
            Err(e) => e == Error::UnresolvedValue && list_contains_null(args@),
        },
    decreases args@, 0int,
{
    let mut sum: usize = 0;
    let mut i: usize = 0;
    proof {
        assert(args@.skip(0) =~= args@);
    }
    while i < args.len()
        invariant
            i <= args@.len(),
            !list_contains_custom(args@),
            render_list(args@).len() <= usize::MAX,
            sum + render_list(args@.skip(i as int)).len() == render_list(args@).len(),
            list_contains_null(args@) == list_contains_null(args@.skip(i as int)),
            !list_contains_custom(args@.skip(i as int)),
        decreases args@.len() - i,
    {
        let ghost tail = args@.skip(i as int);
        proof {
            assert(tail[0] == args@[i as int]);
            assert(tail.drop_first() =~= args@.skip(i as int + 1));
            assert(render_list(tail) == render_one(tail[0]) + render_list(tail.drop_first()));
            assert(list_contains_custom(tail) == (contains_custom(tail[0]) || list_contains_custom(
                tail.drop_first(),
            )));
            assert(list_contains_null(tail) == (contains_null(tail[0]) || list_contains_null(
                tail.drop_first(),
            )));
        }
        match value_length(&args[i]) {
            Ok(n) => {
                sum = sum + n;
            },
            Err(e) => {
                return Err(e);
            },
        }
        i = i + 1;
    }
    proof {
        assert(args@.skip(args@.len() as int) =~= Seq::<Value>::empty());
    }
    Ok(sum)
}

/// Append the textual rendering of one value to `buffer`.
fn render_value_into(v: &Value, buffer: &mut String)
    requires
        !contains_null(*v),
        !contains_custom(*v),
    ensures
        final(buffer)@ == old(buffer)@ + render_one(*v),
    decreases *v,
{
    match v {
        Value::Null => {
            proof {
                assert(false);
            }
        },
        Value::Text(s) => {
            buffer.append(s.as_str());
        },
        Value::Char(c) => {
            push_char(buffer, *c);
            proof {
                assert(old(buffer)@.push(*c) =~= old(buffer)@ + seq![*c]);
            }
        },
        Value::Usize(x) => {
            let digits = usize_to_string(*x);
            buffer.append(digits.as_str());
        },
        Value::Bool(b) => {
            if *b {
                buffer.append("true");
                proof {
                    reveal_strlit("true");
                    assert("true"@ =~= seq!['t', 'r', 'u', 'e']);
                }
            } else {
                buffer.append("false");
                proof {
                    reveal_strlit("false");
                    assert("false"@ =~= seq!['f', 'a', 'l', 's', 'e']);
                }
            }
        },
        Value::List(l) => {
            recursive_concat(l.as_slice(), buffer);
        },
        Value::Custom(_) => {
            proof {
                assert(false);
            }
        },
    }
}

/// Append the textual rendering of every argument, in order, to `buffer`,
/// recursing into nested sequences. Numbers render in decimal, booleans as
/// `true`/`false`, characters as their single-character text.
pub fn recursive_concat(args: &[Value], buffer: &mut String)
    requires
        !list_contains_null(args@),
        !list_contains_custom(args@),
    ensures
        final(buffer)@ == old(buffer)@ + render_list(args@),
    decreases args@, 1int,
{
    let mut i: usize = 0;
    proof {
        assert(args@.skip(0) =~= args@);
    }
    while i < args.len()
        invariant
            i <= args@.len(),
            !list_contains_null(args@.skip(i as int)),
            !list_contains_custom(args@.skip(i as int)),
            buffer@ + render_list(args@.skip(i as int)) == old(buffer)@ + render_list(args@),
        decreases args@.len() - i,
    {
        let ghost tail = args@.skip(i as int);
        proof {
            assert(tail[0] == args@[i as int]);
            assert(tail.drop_first() =~= args@.skip(i as int + 1));
            assert(render_list(tail) == render_one(tail[0]) + render_list(tail.drop_first()));
            assert(list_contains_null(tail) == (contains_null(tail[0]) || list_contains_null(
                tail.drop_first(),
            )));
            assert(list_contains_custom(tail) == (contains_custom(tail[0]) || list_contains_custom(
                tail.drop_first(),
            )));
        }
        render_value_into(&args[i], buffer);
        i = i + 1;
    }
    proof {
        assert(args@.skip(args@.len() as int) =~= Seq::<Value>::empty());
        assert(final(buffer)@ =~= old(buffer)@ + render_list(args@));
    }
}

/// Join all arguments into one piece of text.
///
/// The total length is computed first; if any argument is (or contains) the
/// absent marker, the call fails with the unresolved-value error before any
/// text is produced — an absent marker here means an unresolved upstream
/// value leaked through, and must not be silently dropped.
pub fn concat(args: &[Value]) -> (r: Result<Value, Error>)
    requires
        !list_contains_custom(args@),
        render_list(args@).len() <= usize::MAX,
    ensures
        match r {
            Ok(v) => !list_contains_null(args@) && (v matches Value::Text(t) && t@ == render_list(
                args@,
            )),
            Err(e) => e == Error::UnresolvedValue && list_contains_null(args@),
        },
{
    let total = match recursive_calc_length(args) {
        Ok(n) => n,
        Err(e) => {
            return Err(e);
        },
    };
    let mut buffer = string_with_capacity(total);
    recursive_concat(args, &mut buffer);
    proof {
        assert(buffer@ =~= render_list(args@));
    }
    Ok(Value::Text(buffer))
}

/// The name of the environment variable an `env` invocation asks for: its
/// first argument, which must be text. The embedding program looks the name
/// up and hands the result to [`env`].
pub fn env_var_name(args: &[Value]) -> (r: Result<String, Error>)
    ensures
        args@.len() == 0 ==> r == Err::<String, Error>(Error::InvalidArgCount),
        args@.len() > 0 && !is_text(args@[0]) ==> r == Err::<String, Error>(Error::InvalidArgType),
        args@.len() > 0 && is_text(args@[0]) ==> (r matches Ok(name) && name@ == text_view(
            args@[0],
        )),
{
    if args.len() == 0 {
        return Err(Error::InvalidArgCount);
    }
    match &args[0] {
        Value::Text(s) => Ok(s.clone()),
        _ => Err(Error::InvalidArgType),
    }
}

/// Environment lookup: given one text argument naming a variable and the
/// value the embedding program found for it, return that value as text, or
/// fail with the missing-variable error — never a silent empty substitute.
pub fn env(args: &[Value], fetched: Option<String>) -> (r: Result<Value, Error>)
    ensures
        args@.len() == 0 ==> r == Err::<Value, Error>(Error::InvalidArgCount),
        args@.len() > 0 && !is_text(args@[0]) ==> r == Err::<Value, Error>(Error::InvalidArgType),
        args@.len() > 0 && is_text(args@[0]) && fetched is None ==> r == Err::<Value, Error>(
            Error::MissingEnvVar,
        ),
        args@.len() > 0 && is_text(args@[0]) && fetched is Some ==> (r matches Ok(v) && (
        v matches Value::Text(t) && t@ == fetched->0@)),
{
    if args.len() == 0 {
        return Err(Error::InvalidArgCount);
    }
    match &args[0] {
        Value::Text(_) => match fetched {
            Some(v) => Ok(Value::Text(v)),
            None => Err(Error::MissingEnvVar),
        },
        _ => Err(Error::InvalidArgType),
    }
}

/// Code/diagram execution, dispatched by the language tag in the first
/// argument; the second argument is the cell body.
///
/// Diagram tags (`graphviz`, `dot`) describe a run of the external renderer
/// whose output is substituted verbatim. The stub tags `r` and `sh` return
/// well-formed empty text, preserving document structure while execution
/// support is incomplete. Any other tag is an unsupported-language failure,
/// and no external invocation is described.
pub fn code(args: &[Value]) -> (r: Result<CodeAction, Error>)
    ensures
        args@.len() != 2 ==> r == Err::<CodeAction, Error>(Error::InvalidArgCount),
        args@.len() == 2 && (!is_text(args@[0]) || !is_text(args@[1])) ==> r == Err::<
            CodeAction,
            Error,
        >(Error::InvalidArgType),
        args@.len() == 2 && is_text(args@[0]) && is_text(args@[1]) ==> {
            let lang = text_view(args@[0]);
            if lang == "r"@ || lang == "sh"@ {
                r matches Ok(a) && (a matches CodeAction::Output(v) && (v matches Value::Text(t)
                    && t@ == Seq::<char>::empty()))
            } else if lang == "graphviz"@ || lang == "dot"@ {
                r matches Ok(a) && (a matches CodeAction::Run(c) && c.program@ == "dot"@
                    && c.stdin@ == text_view(args@[1]) && c.args@.len() == 1 && c.args@[0]@
                    == "-Tsvg"@)
            } else {
                r == Err::<CodeAction, Error>(Error::UnsupportedLanguage)
            }
        },
{
    if args.len() != 2 {
        return Err(Error::InvalidArgCount);
    }
    let lang: &String = match &args[0] {
        Value::Text(s) => s,
        _ => {
            return Err(Error::InvalidArgType);
        },
    };
    let body: &String = match &args[1] {
        Value::Text(s) => s,
        _ => {
            return Err(Error::InvalidArgType);
        },
    };
    if str_eq(lang.as_str(), "r") || str_eq(lang.as_str(), "sh") {
        Ok(CodeAction::Output(Value::Text(String::new())))
    } else if str_eq(lang.as_str(), "graphviz") || str_eq(lang.as_str(), "dot") {
        let mut cmd_args: Vec<String> = Vec::new();
        cmd_args.push(String::from_str("-Tsvg"));
        Ok(
            CodeAction::Run(
                ExternalCommand {
                    program: String::from_str("dot"),
                    stdin: body.clone(),
                    args: cmd_args,
                },
            ),
        )
    } else {
        Err(Error::UnsupportedLanguage)
    }
}

} // verus!
