//! Signature analysis and normalization for native declarations exposed to a
//! dynamically typed embedding runtime.
//!
//! The library inspects an annotated declaration (its annotation list,
//! parameter list and return type, all given as plain data) and produces a
//! validated [`CallSpec`](assemble::CallSpec) describing how the runtime must
//! invoke it, or a non-empty list of diagnostics.

use vstd::prelude::*;

pub mod argtable;
pub mod assemble;
pub mod ast;
pub mod classify;
pub mod diag;
pub mod kinds;
pub mod laws;
pub mod receiver;
pub mod strutil;
pub mod tags;

verus! {

/// A source position, carried verbatim into diagnostics.
#[derive(Clone, Copy, Debug, PartialEq, Eq, Structural)]
pub struct SrcLoc {
    pub line: u32,
    pub col: u32,
}

} // verus!
