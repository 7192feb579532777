//! An in-memory entity-component store built from verified parts.
//!
//! The crate provides the storage engine behind a schema-configured world:
//! a schema layer that declares concrete resource slots and entity kinds is
//! expected to instantiate these types and delegate to them.
//!
//! * [`resources`] — the four kinds of process-wide typed value slots:
//!   plain, fixed-array, keyed-map and optional.
//! * [`ident`] — generational entity identifiers.
//! * [`store`] — sparse ordered component columns with binary-search access.
//! * [`registry`] — the per-archetype set of registered identifiers.
//! * [`archetype`] and [`archetype3`] — managers composing a registry with
//!   two or three component columns: creation under a conflict policy,
//!   existence checks, single-component access and composite views.
//!
//! Every mutating operation is specified against a mathematical view of the
//! structure it touches (a value, a sequence, or a map keyed by entity
//! index), and the conflict-policy guarantees are stated as public proof
//! functions beside the managers.

use vstd::prelude::*;

pub mod archetype;
pub mod archetype3;
pub mod ident;
pub mod registry;
pub mod resources;
pub mod store;

verus! {

/// The two failure modes of the store. Every other operation is total:
/// absence of data is reported through `Option`, never through an error.
#[derive(Debug)]
pub enum ECSError {
    /// An array resource was read or written at an index past its length.
    ArrayResourceWriteOutOfBoundsError,
    /// Entity creation under the `Error` policy found the id already in use.
    EntityIdInUseError,
}

/// What `create` does when the requested entity id is already registered.
pub enum ECSEntityCreateConflictResolution {
    /// Fail with [`ECSError::EntityIdInUseError`]; nothing is mutated.
    Error,
    /// Re-register the id and overwrite the components present in the payload;
    /// components absent from the payload keep their prior values.
    Replace,
    /// Return the canonical stored id; nothing is mutated.
    Ignore,
}

} // verus!
