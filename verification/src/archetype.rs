//! Archetype managers: an identity registry composed with one component
//! store per declared component type.
//!
//! Creation applies a three-way conflict policy; single-component access
//! passes through to the stores without consulting the registry, so a
//! component may exist for an index that is not registered. The managers are
//! specified against [`ArchetypeState2`], the mathematical state made of the
//! registry map and one component map per store.

use vstd::prelude::*;

use crate::ECSEntityCreateConflictResolution;
use crate::ECSError;
use crate::ident::EntityId;
use crate::registry::EntityRegistry;
use crate::store::ComponentStore;

verus! {

/// The mathematical state of a two-component archetype: the registry and the
/// component columns, each read as a map keyed by entity index.
pub struct ArchetypeState2<C1, C2> {
    pub registry: Map<int, EntityId>,
    pub c1: Map<int, C1>,
    pub c2: Map<int, C2>,
}

impl<C1, C2> ArchetypeState2<C1, C2> {
    /// True if and only if the id's index is registered and the stored slot
    /// is valid.
    pub open spec fn has(self, id: EntityId) -> bool {
        self.registry.contains_key(id.spec_id() as int) && self.registry[id.spec_id() as int].spec_valid()
    }

    /// The canonical identifier that registering `id` yields: the stored one
    /// where the index is already present, otherwise `id` itself.
    pub open spec fn canonical(self, id: EntityId) -> EntityId {
        if self.registry.contains_key(id.spec_id() as int) {
            self.registry[id.spec_id() as int]
        } else {
            id
        }
    }

    /// The registry after idempotent registration of `id`.
    pub open spec fn registered(self, id: EntityId) -> Map<int, EntityId> {
        if self.registry.contains_key(id.spec_id() as int) {
            self.registry
        } else {
            self.registry.insert(id.spec_id() as int, id)
        }
    }

    /// The state and result of entity creation under `policy`: a conflict
    /// fails under `Error` and is handed back unchanged under `Ignore`;
    /// otherwise the id is registered and exactly the components present in
    /// the payload are written.
    pub open spec fn create(
        self,
        id: EntityId,
        c1: Option<C1>,
        c2: Option<C2>,
        policy: ECSEntityCreateConflictResolution,
    ) -> (ArchetypeState2<C1, C2>, Result<EntityId, ECSError>) {
        if policy is Error && self.has(id) {
            (self, Err(ECSError::EntityIdInUseError))
        } else if policy is Ignore && self.has(id) {
            (self, Ok(self.registry[id.spec_id() as int]))
        } else {
            (
                ArchetypeState2 {
                    registry: self.registered(id),
                    c1: match c1 {
                        Some(v) => self.c1.insert(id.spec_id() as int, v),
                        None => self.c1,
                    },
                    c2: match c2 {
                        Some(v) => self.c2.insert(id.spec_id() as int, v),
                        None => self.c2,
                    },
                },
                Ok(self.canonical(id)),
            )
        }
    }
}

/// The per-component payload of a creation: absent fields are simply not
/// written.
pub struct Bundle2<C1, C2> {
    pub c1: Option<C1>,
    pub c2: Option<C2>,
}

/// A composite read of one entity: one optional borrowed field per declared
/// component; a partially populated view is normal.
pub struct EntityView2<'a, C1, C2> {
    pub c1: Option<&'a C1>,
    pub c2: Option<&'a C2>,
}

/// A manager for an archetype with two declared component types.
pub struct Archetype2<C1, C2> {
    registry: EntityRegistry,
    c1: ComponentStore<C1>,
    c2: ComponentStore<C2>,
}

impl<C1, C2> Archetype2<C1, C2> {
    /// The manager's mathematical state.
    pub closed spec fn state(self) -> ArchetypeState2<C1, C2> {
        ArchetypeState2 { registry: self.registry@, c1: self.c1@, c2: self.c2@ }
    }

    /// Creates a manager with no registered entity and empty columns.
    pub fn new() -> (r: Self)
        ensures
            r.state().registry == Map::<int, EntityId>::empty(),
            r.state().c1 == Map::<int, C1>::empty(),
            r.state().c2 == Map::<int, C2>::empty(),
    {
        Archetype2 { registry: EntityRegistry::new(), c1: ComponentStore::new(), c2: ComponentStore::new() }
    }

    /// True if and only if the id's index is registered with a valid stored
    /// identifier.
    pub fn has(&self, id: &EntityId) -> (r: bool)
        ensures
            r == self.state().has(*id),
    {
        self.registry.has(id)
    }

    /// Creates an entity under the conflict policy; see
    /// [`ArchetypeState2::create`] for the exact effect on the state.
    pub fn create(
        &mut self,
        id: EntityId,
        bundle: Bundle2<C1, C2>,
        conflict_resolution: ECSEntityCreateConflictResolution,
    ) -> (r: Result<EntityId, ECSError>)
        ensures
            ({
                let (post, result) = old(self).state().create(
                    id,
                    bundle.c1,
                    bundle.c2,
                    conflict_resolution,
                );
                &&& final(self).state() == post
                &&& r == result
            }),
    {
        let exists = self.registry.has(&id);
        match (conflict_resolution, exists) {
            (ECSEntityCreateConflictResolution::Error, true) => Err(ECSError::EntityIdInUseError),
            (ECSEntityCreateConflictResolution::Ignore, true) => {
                match self.registry.get(*id.get_id()) {
                    Some(e) => Ok(*e),
                    None => unreached(),
                }
            },
            _ => {
                let canonical = self.registry.register(id);
                let Bundle2 { c1, c2 } = bundle;
                if let Some(v) = c1 {
                    self.c1.insert_or_update(*canonical.get_id(), v);
                }
                if let Some(v) = c2 {
                    self.c2.insert_or_update(*canonical.get_id(), v);
                }
                Ok(canonical)
            },
        }
    }

    /// Writes the first component for the id's index, registered or not.
    pub fn add_c1(&mut self, id: &EntityId, value: C1)
        ensures
            final(self).state().c1 == old(self).state().c1.insert(id.spec_id() as int, value),
            final(self).state().c2 == old(self).state().c2,
            final(self).state().registry == old(self).state().registry,
    {
        self.c1.insert_or_update(*id.get_id(), value);
    }

    /// Writes the second component for the id's index, registered or not.
    pub fn add_c2(&mut self, id: &EntityId, value: C2)
        ensures
            final(self).state().c2 == old(self).state().c2.insert(id.spec_id() as int, value),
            final(self).state().c1 == old(self).state().c1,
            final(self).state().registry == old(self).state().registry,
    {
        self.c2.insert_or_update(*id.get_id(), value);
    }

    /// Reads the first component stored for the id's index, registered or
    /// not.
    pub fn get_c1(&self, id: &EntityId) -> (r: Option<&C1>)
        ensures
            match r {
                Some(v) => self.state().c1.contains_key(id.spec_id() as int) && *v == self.state().c1[id.spec_id() as int],
                None => !self.state().c1.contains_key(id.spec_id() as int),
            },
    {
        self.c1.get(*id.get_id())
    }

    /// Reads the second component stored for the id's index, registered or
    /// not.
    pub fn get_c2(&self, id: &EntityId) -> (r: Option<&C2>)
        ensures
            match r {
                Some(v) => self.state().c2.contains_key(id.spec_id() as int) && *v == self.state().c2[id.spec_id() as int],
                None => !self.state().c2.contains_key(id.spec_id() as int),
            },
    {
        self.c2.get(*id.get_id())
    }

    /// Returns a composite view of the entity if the id's index is
    /// registered: each field carries the component's last written value, or
    /// is absent where none was ever written.
    pub fn get_entity<'a>(&'a self, id: &EntityId) -> (r: Option<EntityView2<'a, C1, C2>>)
        ensures
            match r {
                Some(view) => {
                    &&& self.state().registry.contains_key(id.spec_id() as int)
                    &&& match view.c1 {
                        Some(v) => self.state().c1.contains_key(id.spec_id() as int) && *v
                            == self.state().c1[id.spec_id() as int],
                        None => !self.state().c1.contains_key(id.spec_id() as int),
                    }
                    &&& match view.c2 {
                        Some(v) => self.state().c2.contains_key(id.spec_id() as int) && *v
                            == self.state().c2[id.spec_id() as int],
                        None => !self.state().c2.contains_key(id.spec_id() as int),
                    }
                },
                None => !self.state().registry.contains_key(id.spec_id() as int),
            },
    {
        match self.registry.get(*id.get_id()) {
            Some(_) => Some(
                EntityView2 { c1: self.c1.get(*id.get_id()), c2: self.c2.get(*id.get_id()) },
            ),
            None => None,
        }
    }
}

/// A fresh archetype holds no entity: `has` is false before any creation.
pub proof fn lemma_fresh_archetype_has_none<C1, C2>(s: ArchetypeState2<C1, C2>, id: EntityId)
    requires
        s.registry == Map::<int, EntityId>::empty(),
    ensures
        !s.has(id),
{
}

/// Creation on an unregistered index succeeds under every policy, registers
/// the caller's identifier and returns it, writes exactly the components
/// present in the payload, and afterwards `has` holds for a valid id.
pub proof fn lemma_create_fresh<C1, C2>(
    s: ArchetypeState2<C1, C2>,
    id: EntityId,
    c1: Option<C1>,
    c2: Option<C2>,
    policy: ECSEntityCreateConflictResolution,
)
    requires
        !s.registry.contains_key(id.spec_id() as int),
    ensures
        ({
            let (post, r) = s.create(id, c1, c2, policy);
            &&& r == Ok::<EntityId, ECSError>(id)
            &&& post.registry == s.registry.insert(id.spec_id() as int, id)
            &&& post.c1 == (match c1 {
                Some(v) => s.c1.insert(id.spec_id() as int, v),
                None => s.c1,
            })
            &&& post.c2 == (match c2 {
                Some(v) => s.c2.insert(id.spec_id() as int, v),
                None => s.c2,
            })
            &&& id.spec_valid() ==> post.has(id)
        }),
{
}

/// A second creation of an in-use id under the `Error` policy fails with
/// `EntityIdInUseError` and leaves the registry and every column unchanged.
pub proof fn lemma_create_error_conflict<C1, C2>(
    s: ArchetypeState2<C1, C2>,
    id: EntityId,
    c1: Option<C1>,
    c2: Option<C2>,
)
    requires
        s.has(id),
    ensures
        s.create(id, c1, c2, ECSEntityCreateConflictResolution::Error) == (
            s,
            Err::<EntityId, ECSError>(ECSError::EntityIdInUseError),
        ),
{
}

/// Creation of an in-use id under the `Ignore` policy returns the stored
/// canonical identifier and leaves the registry and every column unchanged.
pub proof fn lemma_create_ignore_conflict<C1, C2>(
    s: ArchetypeState2<C1, C2>,
    id: EntityId,
    c1: Option<C1>,
    c2: Option<C2>,
)
    requires
        s.has(id),
    ensures
        s.create(id, c1, c2, ECSEntityCreateConflictResolution::Ignore) == (
            s,
            Ok::<EntityId, ECSError>(s.registry[id.spec_id() as int]),
        ),
{
}

/// Creation of an in-use id under the `Replace` policy succeeds with the
/// stored canonical identifier, keeps the registry, and overwrites only the
/// components present in the payload: a component omitted from the payload
/// keeps its prior value.
pub proof fn lemma_create_replace_partial<C1, C2>(
    s: ArchetypeState2<C1, C2>,
    id: EntityId,
    c1: Option<C1>,
    c2: Option<C2>,
)
    requires
        s.has(id),
    ensures
        ({
            let (post, r) = s.create(id, c1, c2, ECSEntityCreateConflictResolution::Replace);
            &&& r == Ok::<EntityId, ECSError>(s.registry[id.spec_id() as int])
            &&& post.registry == s.registry
            &&& post.c1 == (match c1 {
                Some(v) => s.c1.insert(id.spec_id() as int, v),
                None => s.c1,
            })
            &&& post.c2 == (match c2 {
                Some(v) => s.c2.insert(id.spec_id() as int, v),
                None => s.c2,
            })
        }),
{
}

} // verus!
