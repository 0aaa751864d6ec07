//! Render state: the mutable key/value store scoped to one full document
//! render. It is created empty, mutated in place pass over pass by stateful
//! functions, and discarded when the render finishes.

use vstd::prelude::*;
use crate::value::Value;

verus! {

/// The closed set of render-state keys of the default document flavour.
/// Keys are enumerated, not arbitrary strings, so a lookup cannot fail
/// because of a typo.
#[derive(Clone, Debug, Eq, Hash, PartialEq)]
pub enum CustomKey {
    /// The accumulated citation buffer: raw citation keys during collection,
    /// the formatted references once the external formatter has run.
    Citations,
    /// The number of citation occurrences counted in the first pass.
    CiteCount,
    /// The citation resolver's explicit state number.
    CiteState,
}

/// The per-render store: one optional [`Value`] slot per key. Only stateful
/// functions read and write it; pure functions never see it.
#[derive(Debug)]
pub struct Variables {
    citations: Option<Value>,
    cite_count: Option<Value>,
    cite_state: Option<Value>,
}

impl Variables {
    /// The value stored under `k`, if any.
    pub closed spec fn spec_get(self, k: CustomKey) -> Option<Value> {
        match k {
            CustomKey::Citations => self.citations,
            CustomKey::CiteCount => self.cite_count,
            CustomKey::CiteState => self.cite_state,
        }
    }

    /// A fresh, empty store for one render.
    pub fn new() -> (r: Variables)
        ensures
            forall|k: CustomKey| r.spec_get(k) is None,
    {
        Variables { citations: None, cite_count: None, cite_state: None }
    }

    /// Look up the value stored under `k`.
    pub fn get(&self, k: &CustomKey) -> (r: Option<&Value>)
        ensures
            match r {
                Some(v) => self.spec_get(*k) == Some(*v),
                None => self.spec_get(*k) is None,
            },
    {
        match k {
            CustomKey::Citations => self.citations.as_ref(),
            CustomKey::CiteCount => self.cite_count.as_ref(),
            CustomKey::CiteState => self.cite_state.as_ref(),
        }
    }

    /// Store `v` under `k`, replacing any earlier value; the other keys keep
    /// what they held.
    pub fn insert(&mut self, k: CustomKey, v: Value)
        ensures
            final(self).spec_get(k) == Some(v),
            forall|k2: CustomKey| k2 != k ==> final(self).spec_get(k2) == old(self).spec_get(k2),
    {
        match k {
            CustomKey::Citations => self.citations = Some(v),
            CustomKey::CiteCount => self.cite_count = Some(v),
            CustomKey::CiteState => self.cite_state = Some(v),
        }
    }
}

/// A fresh render state, as the host evaluator obtains it at the start of a
/// render.
pub fn new_render_state() -> (r: Variables)
    ensures
        forall|k: CustomKey| r.spec_get(k) is None,
{
    Variables::new()
}

} // verus!
