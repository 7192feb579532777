//! The entity identity registry kept by each archetype.
//!
//! The registry holds at most one identifier per entity index, sorted
//! ascending by index; its view is the map from index to the canonical
//! stored identifier. Registration is idempotent by index: registering an
//! index already present changes nothing and hands back the stored
//! identifier, not the caller-supplied one.

use vstd::prelude::*;

use crate::ident::EntityId;
use crate::store::ComponentStore;

verus! {

/// The ordered set of identifiers currently registered for one archetype.
pub struct EntityRegistry {
    ids: ComponentStore<EntityId>,
}

impl View for EntityRegistry {
    type V = Map<int, EntityId>;

    /// The registry read as a map from entity index to its canonical stored
    /// identifier.
    closed spec fn view(&self) -> Map<int, EntityId> {
        self.ids@
    }
}

impl EntityRegistry {
    #[verifier::type_invariant]
    spec fn wf(self) -> bool {
        forall|k: int|
            #[trigger] self.ids@.contains_key(k) ==> self.ids@[k].spec_id() as int == k
    }

    /// Creates an empty registry.
    pub fn new() -> (r: Self)
        ensures
            r@ == Map::<int, EntityId>::empty(),
    {
        EntityRegistry { ids: ComponentStore::new() }
    }

    /// Returns the canonical stored identifier for `index`, if one is
    /// registered.
    pub fn get(&self, index: usize) -> (r: Option<&EntityId>)
        ensures
            match r {
                Some(e) => self@.contains_key(index as int) && *e == self@[index as int],
                None => !self@.contains_key(index as int),
            },
    {
        self.ids.get(index)
    }

    /// True if and only if the identifier's index is registered and the
    /// stored slot is valid. Only the index of `id` takes part in the check.
    pub fn has(&self, id: &EntityId) -> (r: bool)
        ensures
            r == (self@.contains_key(id.spec_id() as int) && self@[id.spec_id() as int].spec_valid()),
    {
        match self.ids.get(*id.get_id()) {
            Some(e) => e.is_valid(),
            None => false,
        }
    }

    /// Registers the identifier's index if it is absent, and in every case
    /// returns the canonical stored identifier for that index: the one
    /// already registered when there is one, otherwise `id` itself.
    pub fn register(&mut self, id: EntityId) -> (canonical: EntityId)
        ensures
            canonical.spec_id() == id.spec_id(),
            old(self)@.contains_key(id.spec_id() as int) ==> {
                &&& final(self)@ == old(self)@
                &&& canonical == old(self)@[id.spec_id() as int]
            },
            !old(self)@.contains_key(id.spec_id() as int) ==> {
                &&& final(self)@ == old(self)@.insert(id.spec_id() as int, id)
                &&& canonical == id
            },
    {
        proof {
            use_type_invariant(&*self);
        }
        let index = *id.get_id();
        let mut ids: ComponentStore<EntityId> = ComponentStore::new();
        core::mem::swap(&mut ids, &mut self.ids);
        let canonical = match ids.get(index) {
            Some(e) => *e,
            None => {
                ids.insert_or_update(index, id);
                id
            },
        };
        self.ids = ids;
        canonical
    }
}

} // verus!
