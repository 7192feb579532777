//! Generational entity identifiers.
//!
//! An identifier carries the entity's index, a generation counter and a
//! validity flag. Two identifiers are equal only if index and generation
//! match; their order compares the index alone. The registry keeps at most
//! one identifier per index, sorted ascending by index.

use vstd::prelude::*;
use vstd::std_specs::cmp::PartialEqSpec;
use vstd::std_specs::cmp::PartialOrdSpec;

verus! {

/// A generational entity identifier.
#[derive(Clone, Copy, Debug)]
pub struct EntityId {
    id: usize,
    generation: usize,
    valid: bool,
}

impl EntityId {
    /// The entity's index: its position key within an archetype.
    pub closed spec fn spec_id(self) -> usize {
        self.id
    }

    /// The generation counter, advanced each time an index slot is reused.
    pub closed spec fn spec_generation(self) -> usize {
        self.generation
    }

    /// Whether the identifier currently names a live entity.
    pub closed spec fn spec_valid(self) -> bool {
        self.valid
    }

    /// Creates a new, valid identifier of the first generation.
    pub fn new(id: usize) -> (r: Self)
        ensures
            r.spec_id() == id,
            r.spec_generation() == 0,
            r.spec_valid(),
    {
        EntityId { id, generation: 0, valid: true }
    }

    /// Creates a new identifier of the first generation in the invalid state.
    pub fn new_invalidated(id: usize) -> (r: Self)
        ensures
            r.spec_id() == id,
            r.spec_generation() == 0,
            !r.spec_valid(),
    {
        EntityId { id, generation: 0, valid: false }
    }

    /// Returns the validity flag.
    pub fn is_valid(&self) -> (r: bool)
        ensures
            r == self.spec_valid(),
    {
        self.valid
    }

    /// Marks the identifier invalid, keeping index and generation.
    ///
    /// Reserved for a removal path; no archetype operation drives it.
    pub fn invalidate(&mut self)
        ensures
            final(self).spec_id() == old(self).spec_id(),
            final(self).spec_generation() == old(self).spec_generation(),
            !final(self).spec_valid(),
    {
        self.valid = false;
    }

    /// Restores validity and advances the generation, so that a stale copy of
    /// the old identifier no longer compares equal to the reissued one.
    ///
    /// Reserved for a removal path; no archetype operation drives it.
    pub fn revalidate(&mut self)
        requires
            old(self).spec_generation() < usize::MAX,
        ensures
            final(self).spec_id() == old(self).spec_id(),
            final(self).spec_generation() == old(self).spec_generation() + 1,
            final(self).spec_valid(),
    {
        self.valid = true;
        self.generation = self.generation + 1;
    }

    /// Returns the entity's index.
    pub fn get_id(&self) -> (r: &usize)
        ensures
            *r == self.spec_id(),
    {
        &self.id
    }
}

/// Reissuing an index advances the generation, and equality compares the
/// generation: a stale copy of the old identifier no longer compares equal
/// to the identifier that [`EntityId::revalidate`] hands out for the same
/// index.
pub proof fn lemma_stale_id_differs_from_reissued(stale: EntityId, reissued: EntityId)
    requires
        stale.spec_id() == reissued.spec_id(),
        stale.spec_generation() != reissued.spec_generation(),
    ensures
        !stale.eq_spec(&reissued),
        stale.partial_cmp_spec(&reissued) == Some(core::cmp::Ordering::Equal),
{
}

impl PartialEq for EntityId {
    /// Two identifiers are equal when both index and generation match; the
    /// validity flag does not take part in equality.
    fn eq(&self, rhs: &Self) -> (r: bool) {
        self.id == rhs.id && self.generation == rhs.generation
    }
}

impl vstd::std_specs::cmp::PartialEqSpecImpl for EntityId {
    open spec fn obeys_eq_spec() -> bool {
        true
    }

    open spec fn eq_spec(&self, rhs: &Self) -> bool {
        self.spec_id() == rhs.spec_id() && self.spec_generation() == rhs.spec_generation()
    }
}

impl PartialOrd for EntityId {
    /// Identifiers are ordered by index alone.
    fn partial_cmp(&self, rhs: &Self) -> (r: Option<core::cmp::Ordering>) {
        if self.id < rhs.id {
            Some(core::cmp::Ordering::Less)
        } else if self.id == rhs.id {
            Some(core::cmp::Ordering::Equal)
        } else {
            Some(core::cmp::Ordering::Greater)
        }
    }
}

impl vstd::std_specs::cmp::PartialOrdSpecImpl for EntityId {
    open spec fn obeys_partial_cmp_spec() -> bool {
        true
    }

    open spec fn partial_cmp_spec(&self, rhs: &Self) -> Option<core::cmp::Ordering> {
        if self.spec_id() < rhs.spec_id() {
            Some(core::cmp::Ordering::Less)
        } else if self.spec_id() == rhs.spec_id() {
            Some(core::cmp::Ordering::Equal)
        } else {
            Some(core::cmp::Ordering::Greater)
        }
    }
}

} // verus!
