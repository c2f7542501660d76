//! Introspection of type declarations for code generators.
//!
//! A declaration node (a struct, enum or union definition whose leaves are
//! `syn` syntax values) is classified by shape and turned into typed records
//! that a generator can match on. Attributes, visibilities, identifiers,
//! generics and types are carried through verbatim and never inspected.
use vstd::prelude::*;

pub mod enums;
pub mod error;
pub mod fields;
pub mod node;
pub mod structs;
pub mod syntax;
pub mod unions;

verus! {

} // verus!
