//! Compiles a hierarchical behavioral-test description — nested `Describe`
//! groups holding `It` examples and `Bench` benchmarks, each group optionally
//! wrapped by `before`/`after` hooks — into a tree of standalone executable
//! units. Hooks propagate down through arbitrarily nested groups: an inherited
//! `before` runs ahead of a node's own, an inherited `after` runs behind it, so
//! a unit's merged body wraps outer hooks around inner ones. Every generated
//! namespace re-exports its enclosing scope as its last member, so helpers
//! visible above a group stay visible inside it.
//!
//! Parsing the surface syntax into the [`block::Block`] tree and emitting
//! source text from the generated tree are the front end's and back end's
//! concerns; this crate is the pure tree-to-tree transformation between them.

pub mod block;
pub mod generator;
pub mod laws;
pub mod merge;
pub mod output;
