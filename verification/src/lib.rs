//! Function-evaluation core of a multi-pass templating/markup renderer.
//!
//! A document is rendered by repeatedly walking its source and invoking named
//! functions whose output may depend on information that is only known after a
//! later walk (for example, how many citations appear in the whole document).
//! Instead of building a dependency graph, the host evaluator re-runs full
//! passes over the document until every stateful function reports that its
//! output is final.
//!
//! This crate provides the pieces of that core:
//! - [`value::Value`], the tagged union every function consumes and produces;
//! - [`state::Variables`], the per-render mutable key/value store;
//! - [`registry::Bindings`], the name-to-function lookup table;
//! - the pure utility functions (`concat`, `env`, `code`) in [`utility`];
//! - the citation resolver state machine (`cite`, `references`) in [`markup`].
//!
//! External subprocesses (the citation formatter and the diagram renderer) and
//! environment lookups are described by plain data ([`utility::ExternalCommand`])
//! that the embedding program executes; the logic that decides what to run,
//! and what to do with the result, lives here.

pub mod markup;
pub mod registry;
pub mod state;
pub mod text;
pub mod utility;
pub mod value;
