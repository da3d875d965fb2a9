//! The protocol's generic structured value.
//!
//! Request parameters leave the core in this shape, and response payloads
//! arrive in it, before any request-specific decoding. The core itself never
//! inspects a value: it only moves one from the transport layer to the typed
//! decoding step of a request kind.

use vstd::prelude::*;

verus! {

/// A structured value in the protocol's generic representation.
///
/// Integers are carried as `i64`; composite values are flat trees of nested
/// values keyed by position (`Array`) or by field name (`Object`).
#[derive(Debug, PartialEq, Eq)]
pub enum GenericValue {
    /// The absent or unit payload.
    Null,
    /// A boolean payload.
    Bool(bool),
    /// An integer payload. Wire-level numbers outside the `i64` range —
    /// large unsigned values as much as floating-point ones — have no
    /// generic representation and are rejected at the conversion boundary.
    Int(i64),
    /// A text payload.
    Text(String),
    /// An ordered sequence of values.
    Array(Vec<GenericValue>),
    /// A record of named fields, in the order the transport delivered them.
    Object(Vec<(String, GenericValue)>),
}

} // verus!
