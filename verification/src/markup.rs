//! The default document flavour: its registry, and the citation resolver —
//! the worked instance of the multi-pass convergence protocol.
//!
//! A citation occurrence is invoked once per pass. Across three passes it
//! counts occurrences, collects raw citation keys into one buffer, has the
//! buffer formatted by one external run of the citation formatter, and then
//! serves each occurrence its formatted entry. The state is inferred jointly
//! from an explicit number stored in render state (`CiteState`) and the shape
//! of the value the host evaluator feeds back (`old_output`); any pair the
//! table does not enumerate means the host broke the feedback contract.

use vstd::prelude::*;
use crate::registry::Binding;
use crate::registry::Bindings;
use crate::registry::PureFn;
use crate::registry::StatefulFn;
use crate::state::CustomKey;
use crate::state::Variables;
use crate::text::nth_part;
use crate::text::spec_after_parts;
use crate::text::spec_split;
use crate::text::text_after_parts;
use crate::utility::ExternalCommand;
use crate::value::CustomValue;
use crate::value::Dirty;
use crate::value::Error;
use crate::value::Value;
use crate::value::is_text;
use crate::value::text_view;

verus! {

/// The citation resolver's explicit state number: what `CiteState` holds,
/// or 0 when nothing is recorded yet.
pub open spec fn cite_state_of(vars: Variables) -> usize {
    match vars.spec_get(CustomKey::CiteState) {
        Some(Value::Usize(s)) => s,
        _ => 0,
    }
}

/// The citation occurrence count: what `CiteCount` holds, or 0 when nothing
/// is recorded yet.
pub open spec fn cite_count_of(vars: Variables) -> usize {
    match vars.spec_get(CustomKey::CiteCount) {
        Some(Value::Usize(c)) => c,
        _ => 0,
    }
}

/// The accumulated citation buffer: raw citation keys (each followed by a
/// blank-line separator) during collection, the formatted references once
/// the external formatter has run.
pub open spec fn citations_of(vars: Variables) -> Seq<char> {
    match vars.spec_get(CustomKey::Citations) {
        Some(Value::Text(s)) => s@,
        _ => Seq::<char>::empty(),
    }
}

/// Well-formedness of the reserved render-state keys: each holds a value of
/// its kind when present, and the citation buffer exists from the collection
/// state on. The resolver's own writes preserve this.
pub open spec fn storage_wf(vars: Variables) -> bool {
    &&& match vars.spec_get(CustomKey::CiteState) {
        None => true,
        Some(v) => v is Usize,
    }
    &&& match vars.spec_get(CustomKey::CiteCount) {
        None => true,
        Some(v) => v is Usize,
    }
    &&& match vars.spec_get(CustomKey::Citations) {
        None => true,
        Some(v) => v is Text,
    }
    &&& 1 <= cite_state_of(vars) <= 4 ==> vars.spec_get(CustomKey::Citations) is Some
}

/// The citation state machine's transition table: from the recorded state
/// number and the shape of the fed-back output, the state this invocation
/// acts in and the occurrence's ordinal index. `None` is a protocol
/// violation: the host evaluator broke its feedback contract.
///
/// | new state | meaning                | trigger                          |
/// |-----------|------------------------|----------------------------------|
/// | 0         | counting pass          | (0, absent marker)               |
/// | 1         | first collection call  | (0, integer)                     |
/// | 2         | later collection call  | (1 or 2, integer)                |
/// | 3         | first formatting call  | (1 or 2, pending citation)       |
/// | 4         | later formatting call  | (3 or 4, pending citation)       |
pub open spec fn classify(old_state: usize, old_output: Value) -> Option<(usize, usize)> {
    match old_output {
        Value::Null => if old_state == 0 {
            Some((0usize, 0usize))
        } else {
            None
        },
        Value::Usize(i) => if old_state == 0 {
            Some((1usize, i))
        } else if old_state == 1 || old_state == 2 {
            Some((2usize, i))
        } else {
            None
        },
        Value::Custom(CustomValue::Citation(i)) => if old_state == 1 || old_state == 2 {
            Some((3usize, i))
        } else if old_state == 3 || old_state == 4 {
            Some((4usize, i))
        } else {
            None
        },
        _ => None,
    }
}

/// What one `cite` invocation asks of the host evaluator.
#[derive(Debug)]
pub enum CiteOutcome {
    /// A signal and a value, as every stateful function returns them.
    Done(Dirty, Value),
    /// The first formatting call: run the external citation formatter once
    /// over the whole accumulated buffer, store the result with
    /// [`cite_finish`], and use what it returns.
    NeedsFormatting {
        /// The accumulated raw-citekey buffer to format.
        citekeys: String,
        /// This occurrence's ordinal index.
        index: usize,
    },
}

/// The citation resolver. One occurrence, one call per pass; exactly one
/// text argument, the raw citation key.
///
/// Pass 1 counts occurrences and hands each its ordinal index, `Waiting`.
/// Pass 2 appends each occurrence's key plus a blank-line separator to the
/// buffer, `Waiting`. Pass 3 first asks the host to run the external
/// formatter once ([`CiteOutcome::NeedsFormatting`]), then serves every
/// occurrence the formatted entry at its ordinal index, `Ready`.
///
/// Argument errors are detected before any state mutation; an unrecognized
/// (state, fed-back output) pair is a protocol violation and also mutates
/// nothing.
pub fn cite(args: &[Value], old_output: Value, storage: &mut Variables) -> (r: Result<
    CiteOutcome,
    Error,
>)
    requires
        storage_wf(*old(storage)),
        cite_count_of(*old(storage)) < usize::MAX,
    ensures
        storage_wf(*final(storage)),
        args@.len() != 1 ==> r == Err::<CiteOutcome, Error>(Error::InvalidArgCount)
            && *final(storage) == *old(storage),
        args@.len() == 1 && !is_text(args@[0]) ==> r == Err::<CiteOutcome, Error>(
            Error::InvalidArgType,
        ) && *final(storage) == *old(storage),
        args@.len() == 1 && is_text(args@[0]) ==> match classify(
            cite_state_of(*old(storage)),
            old_output,
        ) {
            None => r == Err::<CiteOutcome, Error>(Error::ProtocolViolation) && *final(storage)
                == *old(storage),
            Some(t) => {
                let state = t.0;
                let id = t.1;
                &&& final(storage).spec_get(CustomKey::CiteState) == Some(Value::Usize(state))
                &&& state == 0 ==> {
                    &&& r == Ok::<CiteOutcome, Error>(
                        CiteOutcome::Done(
                            Dirty::Waiting,
                            Value::Usize(cite_count_of(*old(storage))),
                        ),
                    )
                    &&& final(storage).spec_get(CustomKey::CiteCount) == Some(
                        Value::Usize((cite_count_of(*old(storage)) + 1) as usize),
                    )
                    &&& final(storage).spec_get(CustomKey::Citations) == old(storage).spec_get(
                        CustomKey::Citations,
                    )
                }
                &&& state == 1 || state == 2 ==> {
                    &&& r == Ok::<CiteOutcome, Error>(
                        CiteOutcome::Done(
                            Dirty::Waiting,
                            Value::Custom(CustomValue::Citation(id)),
                        ),
                    )
                    &&& citations_of(*final(storage)) == (if state == 1 {
                        Seq::<char>::empty()
                    } else {
                        citations_of(*old(storage))
                    }) + text_view(args@[0]) + seq!['\n', '\n']
                    &&& final(storage).spec_get(CustomKey::Citations) matches Some(b) && b is Text
                    &&& final(storage).spec_get(CustomKey::CiteCount) == old(storage).spec_get(
                        CustomKey::CiteCount,
                    )
                }
                &&& state == 3 ==> {
                    &&& (r matches Ok(o) && (o matches CiteOutcome::NeedsFormatting {
                        citekeys,
                        index,
                    } && citekeys@ == citations_of(*old(storage)) && index == id))
                    &&& final(storage).spec_get(CustomKey::Citations) == old(storage).spec_get(
                        CustomKey::Citations,
                    )
                    &&& final(storage).spec_get(CustomKey::CiteCount) == old(storage).spec_get(
                        CustomKey::CiteCount,
                    )
                }
                &&& state == 4 ==> {
                    &&& final(storage).spec_get(CustomKey::Citations) == old(storage).spec_get(
                        CustomKey::Citations,
                    )
                    &&& final(storage).spec_get(CustomKey::CiteCount) == old(storage).spec_get(
                        CustomKey::CiteCount,
                    )
                    &&& if id < spec_split(citations_of(*old(storage))).len() {
                        r matches Ok(o) && (o matches CiteOutcome::Done(d, v) && d == Dirty::Ready
                            && (v matches Value::Text(tx) && tx@ == spec_split(
                            citations_of(*old(storage)),
                        )[id as int]))
                    } else {
                        r == Err::<CiteOutcome, Error>(Error::ProtocolViolation)
                    }
                }
            },
        },
{
    if args.len() != 1 {
        return Err(Error::InvalidArgCount);
    }
    let citekey: &String = match &args[0] {
        Value::Text(s) => s,
        _ => {
            return Err(Error::InvalidArgType);
        },
    };
    let old_state: usize = match storage.get(&CustomKey::CiteState) {
        Some(v) => match v {
            Value::Usize(x) => *x,
            _ => {
                proof {
                    assert(false);
                }
                0
            },
        },
        None => 0,
    };
    let (state, id): (usize, usize) = match &old_output {
        Value::Null => {
            if old_state == 0 {
                (0, 0)
            } else {
                return Err(Error::ProtocolViolation);
            }
        },
        Value::Usize(i) => {
            if old_state == 0 {
                (1, *i)
            } else if old_state == 1 || old_state == 2 {
                (2, *i)
            } else {
                return Err(Error::ProtocolViolation);
            }
        },
        Value::Custom(CustomValue::Citation(i)) => {
            if old_state == 1 || old_state == 2 {
                (3, *i)
            } else if old_state == 3 || old_state == 4 {
                (4, *i)
            } else {
                return Err(Error::ProtocolViolation);
            }
        },
        _ => {
            return Err(Error::ProtocolViolation);
        },
    };
    storage.insert(CustomKey::CiteState, Value::Usize(state));
    if state == 0 {
        let cite_count: usize = match storage.get(&CustomKey::CiteCount) {
            Some(v) => match v {
                Value::Usize(x) => *x,
                _ => {
                    proof {
                        assert(false);
                    }
                    0
                },
            },
            None => 0,
        };
        storage.insert(CustomKey::CiteCount, Value::Usize(cite_count + 1));
        Ok(CiteOutcome::Done(Dirty::Waiting, Value::Usize(cite_count)))
    } else if state == 1 || state == 2 {
        let mut list: String = if state == 1 {
            String::new()
        } else {
            match storage.get(&CustomKey::Citations) {
                Some(v) => match v {
                    Value::Text(s) => s.clone(),
                    _ => {
                        proof {
                            assert(false);
                        }
                        String::new()
                    },
                },
                None => {
                    proof {
                        assert(false);
                    }
                    String::new()
                },
            }
        };
        list.append(citekey.as_str());
        list.append("\n\n");
        proof {
            reveal_strlit("\n\n");
            assert("\n\n"@ =~= seq!['\n', '\n']);
        }
        storage.insert(CustomKey::Citations, Value::Text(list));
        Ok(CiteOutcome::Done(Dirty::Waiting, Value::Custom(CustomValue::Citation(id))))
    } else if state == 3 {
        let citekeys: String = match storage.get(&CustomKey::Citations) {
            Some(v) => match v {
                Value::Text(s) => s.clone(),
                _ => {
                    proof {
                        assert(false);
                    }
                    String::new()
                },
            },
            None => {
                proof {
                    assert(false);
                }
                String::new()
            },
        };
        Ok(CiteOutcome::NeedsFormatting { citekeys, index: id })
    } else {
        let citerefs: String = match storage.get(&CustomKey::Citations) {
            Some(v) => match v {
                Value::Text(s) => s.clone(),
                _ => {
                    proof {
                        assert(false);
                    }
                    String::new()
                },
            },
            None => {
                proof {
                    assert(false);
                }
                String::new()
            },
        };
        match nth_part(citerefs.as_str(), id) {
            Some(part) => Ok(CiteOutcome::Done(Dirty::Ready, Value::Text(part))),
            None => Err(Error::ProtocolViolation),
        }
    }
}

/// Complete the formatting transition: store the formatter's output as the
/// new citation buffer and serve the occurrence's entry — the part of the
/// formatted text at its ordinal index under blank-line splitting. An index
/// beyond the entries means the buffer and the count fell out of step; that
/// fails cleanly rather than read past the buffer.
pub fn cite_finish(formatted: String, index: usize, storage: &mut Variables) -> (r: Result<
    (Dirty, Value),
    Error,
>)
    requires
        storage_wf(*old(storage)),
    ensures
        storage_wf(*final(storage)),
        final(storage).spec_get(CustomKey::CiteState) == old(storage).spec_get(CustomKey::CiteState),
        final(storage).spec_get(CustomKey::CiteCount) == old(storage).spec_get(CustomKey::CiteCount),
        citations_of(*final(storage)) == formatted@,
        final(storage).spec_get(CustomKey::Citations) matches Some(b) && b is Text,
        if index < spec_split(formatted@).len() {
            r matches Ok(p) && p.0 == Dirty::Ready && (p.1 matches Value::Text(t) && t@
                == spec_split(formatted@)[index as int])
        } else {
            r == Err::<(Dirty, Value), Error>(Error::ProtocolViolation)
        },
{
    let part = nth_part(formatted.as_str(), index);
    storage.insert(CustomKey::Citations, Value::Text(formatted));
    match part {
        Some(p) => Ok((Dirty::Ready, Value::Text(p))),
        None => Err(Error::ProtocolViolation),
    }
}

/// The references aggregator: a stateful function with no arguments,
/// read-only over the citation resolver's state.
///
/// While citations have not yet been collected it returns `Waiting` with
/// empty text — calling it before any citation occurrence exists yields no
/// reference list, not a failure. From the collection state on it returns,
/// `Ready`, the suffix of the citation buffer that follows all
/// `CiteCount` per-citation entries. It never advances the resolver's state.
///
/// Its contract pins the result as a function of the render state alone and
/// leaves that state unchanged, so re-querying it any number of times after
/// convergence returns identical output.
pub fn references(args: &[Value], _old_output: Value, storage: &mut Variables) -> (r: Result<
    (Dirty, Value),
    Error,
>)
    requires
        storage_wf(*old(storage)),
    ensures
        *final(storage) == *old(storage),
        args@.len() != 0 ==> r == Err::<(Dirty, Value), Error>(Error::InvalidArgCount),
        args@.len() == 0 ==> {
            let s0 = cite_state_of(*old(storage));
            let c0 = cite_count_of(*old(storage));
            let b0 = citations_of(*old(storage));
            if s0 == 0 {
                r matches Ok(p) && p.0 == Dirty::Waiting && (p.1 matches Value::Text(t) && t@
                    == Seq::<char>::empty())
            } else if s0 <= 4 {
                if c0 < spec_split(b0).len() {
                    r matches Ok(p) && p.0 == Dirty::Ready && (p.1 matches Value::Text(t) && t@
                        == spec_after_parts(b0, c0 as int))
                } else {
                    r == Err::<(Dirty, Value), Error>(Error::ProtocolViolation)
                }
            } else {
                r == Err::<(Dirty, Value), Error>(Error::ProtocolViolation)
            }
        },
{
    if args.len() != 0 {
        return Err(Error::InvalidArgCount);
    }
    let state: usize = match storage.get(&CustomKey::CiteState) {
        Some(v) => match v {
            Value::Usize(x) => *x,
            _ => {
                proof {
                    assert(false);
                }
                0
            },
        },
        None => 0,
    };
    if state == 0 {
        return Ok((Dirty::Waiting, Value::Text(String::new())));
    }
    if state > 4 {
        return Err(Error::ProtocolViolation);
    }
    let cite_count: usize = match storage.get(&CustomKey::CiteCount) {
        Some(v) => match v {
            Value::Usize(x) => *x,
            _ => {
                proof {
                    assert(false);
                }
                0
            },
        },
        None => 0,
    };
    let citerefs: String = match storage.get(&CustomKey::Citations) {
        Some(v) => match v {
            Value::Text(s) => s.clone(),
            _ => {
                proof {
                    assert(false);
                }
                String::new()
            },
        },
        None => {
            proof {
                assert(false);
            }
            String::new()
        },
    };
    match text_after_parts(citerefs.as_str(), cite_count) {
        Some(t) => Ok((Dirty::Ready, Value::Text(t))),
        None => Err(Error::ProtocolViolation),
    }
}

/// Describe the single external citation-formatting run: the formatter is
/// fed the whole accumulated citekey buffer on standard input, with the
/// bibliography file named by the required configuration value. A missing
/// bibliography is the missing-configuration error — distinct from formatter
/// failure, reported before any command is described, never defaulted.
pub fn pandoc_cite(citekeys: &str, bibliography: Option<String>) -> (r: Result<
    ExternalCommand,
    Error,
>)
    ensures
        bibliography is None ==> r == Err::<ExternalCommand, Error>(Error::MissingEnvVar),
        bibliography matches Some(b) ==> (r matches Ok(c) && c.program@ == "pandoc"@ && c.stdin@
            == citekeys@ && c.args@.len() == 4 && c.args@[0]@ == "--citeproc"@ && c.args@[1]@
            == "-t"@ && c.args@[2]@ == "plain"@ && c.args@[3]@ == b@),
{
    let b = match bibliography {
        Some(b) => b,
        None => {
            return Err(Error::MissingEnvVar);
        },
    };
    let mut cmd_args: Vec<String> = Vec::new();
    cmd_args.push(String::from_str("--citeproc"));
    cmd_args.push(String::from_str("-t"));
    cmd_args.push(String::from_str("plain"));
    cmd_args.push(b);
    Ok(
        ExternalCommand {
            program: String::from_str("pandoc"),
            stdin: String::from_str(citekeys),
            args: cmd_args,
        },
    )
}

/// The registrations of the default flavour, in order.
pub open spec fn default_bindings() -> Seq<(Seq<char>, Binding)> {
    seq![
        ("env"@, Binding::Pure(PureFn::Env)),
        ("include"@, Binding::Pure(PureFn::Concat)),
        ("run"@, Binding::Pure(PureFn::Code)),
        ("r"@, Binding::Pure(PureFn::Code)),
        ("prettify"@, Binding::Pure(PureFn::Concat)),
        ("end"@, Binding::Pure(PureFn::Concat)),
        ("if"@, Binding::Pure(PureFn::Concat)),
        ("endif"@, Binding::Pure(PureFn::Concat)),
        ("cite"@, Binding::Stateful(StatefulFn::Cite)),
        ("references"@, Binding::Stateful(StatefulFn::References)),
    ]
}

/// The default flavour's registry.
pub fn default_context() -> (r: Bindings)
    ensures
        r@ == default_bindings(),
{
    let mut ctx = Bindings::new();
    ctx.register_pure_function("env", PureFn::Env);
    ctx.register_pure_function("include", PureFn::Concat);
    ctx.register_pure_function("run", PureFn::Code);
    ctx.register_pure_function("r", PureFn::Code);
    ctx.register_pure_function("prettify", PureFn::Concat);
    ctx.register_pure_function("end", PureFn::Concat);
    ctx.register_pure_function("if", PureFn::Concat);
    ctx.register_pure_function("endif", PureFn::Concat);
    ctx.register_stateful_function("cite", StatefulFn::Cite);
    ctx.register_stateful_function("references", StatefulFn::References);
    proof {
        assert(ctx@ =~~= default_bindings());
    }
    ctx
}

/// Convergence progression: whatever the recorded state when an occurrence
/// is invoked, its three rounds of feedback move it through counting
/// (pass 1: absent marker in, ordinal integer out), collection (pass 2:
/// integer in, pending citation out) and formatting (pass 3: pending
/// citation in, final text out), and no further pass is needed; every pair
/// outside the table is rejected. With `cite`'s contract this bounds the
/// citation-state progression of any document at exactly three passes.
pub proof fn lemma_three_pass_progression(s: usize, i: usize)
    ensures
        classify(0, Value::Null) == Some((0usize, 0usize)),
        s == 0 ==> classify(s, Value::Usize(i)) == Some((1usize, i)),
        s == 1 || s == 2 ==> classify(s, Value::Usize(i)) == Some((2usize, i)),
        s == 1 || s == 2 ==> classify(s, Value::Custom(CustomValue::Citation(i))) == Some(
            (3usize, i),
        ),
        s == 3 || s == 4 ==> classify(s, Value::Custom(CustomValue::Citation(i))) == Some(
            (4usize, i),
        ),
        s >= 1 ==> classify(s, Value::Null) is None,
        s >= 3 ==> classify(s, Value::Usize(i)) is None,
        s == 0 || s >= 5 ==> classify(s, Value::Custom(CustomValue::Citation(i))) is None,
{
}

/// Ordinal stability: whenever the transition table accepts a fed-back
/// value that carries an ordinal index — the integer of the counting pass
/// or the pending citation of the collection pass — the invocation acts on
/// exactly that index. The index assigned in pass 1 is therefore the index
/// used to retrieve the formatted entry in pass 3, independent of argument
/// content.
pub proof fn lemma_ordinal_stability(s: usize, out: Value)
    ensures
        out matches Value::Usize(i) ==> (classify(s, out) matches Some(t) ==> t.1 == i),
        out matches Value::Custom(CustomValue::Citation(i)) ==> (classify(s, out) matches Some(t)
            ==> t.1 == i),
{
}

} // verus!
