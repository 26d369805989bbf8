//! The caller-supplied data for one render.

use vstd::prelude::*;

verus! {

/// A context value: text, an ordered sequence of values, or a nested
/// mapping from string keys to values. A render evaluates its template
/// against one such value, usually a mapping; the context is not touched
/// by the library itself beyond handing it to the templating engine.
#[derive(Debug)]
pub enum CtxValue {
    /// A single text value.
    Scalar(String),
    /// An ordered sequence of values.
    Sequence(Vec<CtxValue>),
    /// Named entries, resolved by the template's variable references.
    Mapping(Vec<(String, CtxValue)>),
}

} // verus!
