//! A verified single-table persistence layer for a small identity domain:
//! users, organizations, teams, and their membership relations, all stored
//! in one wide-column key-value table addressed by composite string keys.
//!
//! The layers are:
//! - `keys`: derivation of primary and secondary-index key strings,
//! - `entities`: the domain types and the error taxonomy,
//! - `item`: the stored wide-column item shape,
//! - `roles`: the delimited-string codec for a user's roles,
//! - `codec`: conversion between entities and stored items,
//! - `table`: a verified model of the key-value table service,
//! - `ops`: the access operations composing keys, codec and table,
//! - `laws`: proved properties relating several operations.
use vstd::prelude::*;

pub mod codec;
pub mod entities;
pub mod item;
pub mod keys;
pub mod laws;
pub mod ops;
pub mod roles;
pub mod table;

verus! {

/// The typed failures an access operation can return.
#[derive(Clone, Copy, Debug, PartialEq, Eq, Structural)]
pub enum Error {
    /// A point read or exact-match index query found zero items.
    NotFound,
    /// An index query expected to be unique returned more than one item.
    Conflict,
    /// The underlying table call itself failed.
    Unavailable,
    /// A stored item could not be interpreted as the expected entity shape.
    DecodeFailure,
}

} // verus!
