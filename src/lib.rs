//! A typed document model for interactive message layouts, rendered to the
//! exact structured form that the consuming service parses.
//!
//! Callers build leaves (elements and composition objects) through their
//! builders, place them into the closed alternatives that accept them with
//! `From`/`into`, assemble sequences of blocks, and render the tree: first to a
//! [`value::Value`], an ordered tree of fields, and from there to JSON text.
//!
//! Membership of a leaf in an alternative is a static relation: each
//! conversion names the alternative's own case, so a conversion into an
//! alternative that does not list the leaf does not compile.
use vstd::prelude::*;

pub mod blocks;
pub mod builder;
pub mod composition;
pub mod elements;
pub mod json;
pub mod value;

verus! {

} // verus!
