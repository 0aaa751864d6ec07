//! The function registry: maps a function name to either a pure function
//! (stateless, single-pass) or a stateful one (participating in multi-pass
//! convergence). Lookups are exact-match and case-sensitive, and the last
//! registration under a name wins.

use vstd::prelude::*;
use crate::text::str_eq;

verus! {

/// The pure functions a flavour can register.
#[derive(Debug, Clone, Copy, PartialEq, Eq, Structural)]
pub enum PureFn {
    /// Environment lookup ([`crate::utility::env`]).
    Env,
    /// Concatenation ([`crate::utility::concat`]).
    Concat,
    /// Code/diagram execution dispatch ([`crate::utility::code`]).
    Code,
}

/// The stateful functions a flavour can register.
#[derive(Debug, Clone, Copy, PartialEq, Eq, Structural)]
pub enum StatefulFn {
    /// The citation resolver ([`crate::markup::cite`]).
    Cite,
    /// The references aggregator ([`crate::markup::references`]).
    References,
}

/// What a registered name is bound to.
#[derive(Debug, Clone, Copy, PartialEq, Eq, Structural)]
pub enum Binding {
    /// A pure function: no render state, same output for the same arguments
    /// within one pass.
    Pure(PureFn),
    /// A stateful function: sees render state and its own previous output.
    Stateful(StatefulFn),
}

/// The binding a name resolves to in a registration sequence: the latest
/// entry under that exact name, if any.
pub open spec fn spec_lookup(entries: Seq<(Seq<char>, Binding)>, name: Seq<char>) -> Option<
    Binding,
>
    decreases entries.len(),
{
    if entries.len() == 0 {
        None
    } else if entries.last().0 == name {
        Some(entries.last().1)
    } else {
        spec_lookup(entries.drop_last(), name)
    }
}

/// The registry of one document flavour, in registration order.
#[derive(Debug)]
pub struct Bindings {
    entries: Vec<(String, Binding)>,
}

impl View for Bindings {
    type V = Seq<(Seq<char>, Binding)>;

    closed spec fn view(&self) -> Seq<(Seq<char>, Binding)> {
        self.entries@.map_values(|e: (String, Binding)| (e.0@, e.1))
    }
}

impl Bindings {
    /// An empty registry.
    pub fn new() -> (r: Bindings)
        ensures
            r@ == Seq::<(Seq<char>, Binding)>::empty(),
    {
        let r = Bindings { entries: Vec::new() };
        proof {
            assert(r@ =~= Seq::<(Seq<char>, Binding)>::empty());
        }
        r
    }

    /// Register a pure function under `name`, shadowing any earlier binding
    /// of that name.
    pub fn register_pure_function(&mut self, name: &str, f: PureFn)
        ensures
            final(self)@ == old(self)@.push((name@, Binding::Pure(f))),
    {
        self.entries.push((String::from_str(name), Binding::Pure(f)));
        proof {
            assert(final(self)@ =~= old(self)@.push((name@, Binding::Pure(f))));
        }
    }

    /// Register a stateful function under `name`, shadowing any earlier
    /// binding of that name.
    pub fn register_stateful_function(&mut self, name: &str, f: StatefulFn)
        ensures
            final(self)@ == old(self)@.push((name@, Binding::Stateful(f))),
    {
        self.entries.push((String::from_str(name), Binding::Stateful(f)));
        proof {
            assert(final(self)@ =~= old(self)@.push((name@, Binding::Stateful(f))));
        }
    }

    /// Resolve `name`: the latest registration under that exact name wins.
    pub fn lookup(&self, name: &str) -> (r: Option<Binding>)
        ensures
            r == spec_lookup(self@, name@),
    {
        let mut i: usize = self.entries.len();
        proof {
            assert(self@.take(i as int) =~= self@);
        }
        while i > 0
            invariant
                i <= self.entries.len(),
                self@.len() == self.entries.len(),
                spec_lookup(self@, name@) == spec_lookup(self@.take(i as int), name@),
            decreases i,
        {
            i = i - 1;
            let ghost prefix = self@.take(i as int + 1);
            proof {
                assert(prefix.last() == self@[i as int]);
                assert(prefix.drop_last() =~= self@.take(i as int));
            }
            if str_eq(self.entries[i].0.as_str(), name) {
                return Some(self.entries[i].1);
            }
        }
        proof {
            assert(self@.take(0) =~= Seq::<(Seq<char>, Binding)>::empty());
        }
        None
    }
}

} // verus!
