//! Resource slots: four independent kinds of process-wide typed values.
//!
//! * [`PlainResource`] — a single value, always present.
//! * [`ArrayResource`] — a fixed-length buffer with bounds-checked access.
//! * [`MapResource`] — a key-to-value association with upsert semantics.
//! * [`OptionalResource`] — a presence flag plus a value.
//!
//! A slot stores the value it was given; the schema layer that declares the
//! slots supplies each type's default where one is called for.

use vstd::prelude::*;

use crate::ECSError;
use crate::store::ComponentStore;

verus! {

/// A single process-wide value. Reads and writes are total.
pub struct PlainResource<T> {
    value: T,
}

impl<T> View for PlainResource<T> {
    type V = T;

    /// The stored value.
    closed spec fn view(&self) -> T {
        self.value
    }
}

impl<T> PlainResource<T> {
    /// Creates the slot holding `initial`.
    pub fn new(initial: T) -> (r: Self)
        ensures
            r@ == initial,
    {
        PlainResource { value: initial }
    }

    /// Replaces the stored value.
    pub fn write(&mut self, value: T)
        ensures
            final(self)@ == value,
    {
        self.value = value;
    }

    /// Returns the stored value.
    pub fn get(&self) -> (r: &T)
        ensures
            *r == self@,
    {
        &self.value
    }
}

/// A fixed-length buffer of `N` values. Every index access is bounds-checked:
/// an index at or past `N` is reported as
/// [`ECSError::ArrayResourceWriteOutOfBoundsError`] and leaves the buffer
/// unchanged.
pub struct ArrayResource<T, const N: usize> {
    data: [T; N],
    default: T,
}

impl<T, const N: usize> View for ArrayResource<T, N> {
    type V = Seq<T>;

    /// The buffer's contents, in index order.
    closed spec fn view(&self) -> Seq<T> {
        self.data@
    }
}

impl<T: Copy, const N: usize> ArrayResource<T, N> {
    /// The value that `new` filled the buffer with and that `clear` resets
    /// every slot to.
    pub closed spec fn spec_default(self) -> T {
        self.default
    }

    /// Creates the buffer with every slot holding `default`.
    pub fn new(default: T) -> (r: Self)
        ensures
            r@.len() == N as int,
            forall|i: int| 0 <= i < N as int ==> r@[i] == default,
            r.spec_default() == default,
    {
        ArrayResource { data: [default; N], default }
    }

    /// Overwrites the slot at `index` if `index` is in bounds, and otherwise
    /// fails leaving the buffer unchanged.
    pub fn write(&mut self, value: T, index: usize) -> (r: Result<(), ECSError>)
        ensures
            final(self).spec_default() == old(self).spec_default(),
            match r {
                Ok(()) => index < N && final(self)@ == old(self)@.update(index as int, value),
                Err(e) => {
                    &&& index >= N
                    &&& e == ECSError::ArrayResourceWriteOutOfBoundsError
                    &&& final(self)@ == old(self)@
                },
            },
    {
        if index < N {
            self.data[index] = value;
            Ok(())
        } else {
            Err(ECSError::ArrayResourceWriteOutOfBoundsError)
        }
    }

    /// Returns the slot at `index` if `index` is in bounds, and otherwise
    /// fails.
    pub fn get(&self, index: usize) -> (r: Result<&T, ECSError>)
        ensures
            match r {
                Ok(v) => index < N && *v == self@[index as int],
                Err(e) => index >= N && e == ECSError::ArrayResourceWriteOutOfBoundsError,
            },
    {
        if index < N {
            Ok(&self.data[index])
        } else {
            Err(ECSError::ArrayResourceWriteOutOfBoundsError)
        }
    }

    /// Resets every slot to the buffer's default value.
    pub fn clear(&mut self)
        ensures
            final(self).spec_default() == old(self).spec_default(),
            final(self)@.len() == N as int,
            forall|i: int| 0 <= i < N as int ==> final(self)@[i] == old(self).spec_default(),
    {
        self.data = [self.default; N];
    }
}

/// A key-to-value association with upsert semantics, keyed by integer,
/// empty when created. Built on the same sorted sparse column as the
/// component stores.
pub struct MapResource<T> {
    entries: ComponentStore<T>,
}

impl<T> View for MapResource<T> {
    type V = Map<int, T>;

    /// The association read as a map from key to value.
    closed spec fn view(&self) -> Map<int, T> {
        self.entries@
    }
}

impl<T> MapResource<T> {
    /// Creates an empty association.
    pub fn new() -> (r: Self)
        ensures
            r@ == Map::<int, T>::empty(),
    {
        MapResource { entries: ComponentStore::new() }
    }

    /// Inserts or overwrites the value stored for `key`, returning the value
    /// previously stored there, if any.
    pub fn write(&mut self, key: usize, value: T) -> (prev: Option<T>)
        ensures
            final(self)@ == old(self)@.insert(key as int, value),
            match prev {
                Some(p) => old(self)@.contains_key(key as int) && p == old(self)@[key as int],
                None => !old(self)@.contains_key(key as int),
            },
    {
        self.entries.insert_or_update(key, value)
    }

    /// Returns the value stored for `key`, if any.
    pub fn get(&self, key: usize) -> (r: Option<&T>)
        ensures
            match r {
                Some(v) => self@.contains_key(key as int) && *v == self@[key as int],
                None => !self@.contains_key(key as int),
            },
    {
        self.entries.get(key)
    }

    /// Empties the association.
    pub fn clear(&mut self)
        ensures
            final(self)@ == Map::<int, T>::empty(),
    {
        self.entries.clear();
    }
}

/// A presence flag plus a value, absent when created.
pub struct OptionalResource<T> {
    value: Option<T>,
}

impl<T> View for OptionalResource<T> {
    type V = Option<T>;

    /// The stored value, if present.
    closed spec fn view(&self) -> Option<T> {
        self.value
    }
}

impl<T> OptionalResource<T> {
    /// Creates the slot in the absent state.
    pub fn new() -> (r: Self)
        ensures
            r@ is None,
    {
        OptionalResource { value: None }
    }

    /// Stores `value` and marks the slot present.
    pub fn write(&mut self, value: T)
        ensures
            final(self)@ == Some(value),
    {
        self.value = Some(value);
    }

    /// Marks the slot absent.
    pub fn clear(&mut self)
        ensures
            final(self)@ is None,
    {
        self.value = None;
    }

    /// Returns the value if the slot is present.
    pub fn get(&self) -> (r: Option<&T>)
        ensures
            match r {
                Some(v) => self@ == Some(*v),
                None => self@ is None,
            },
    {
        match &self.value {
            Some(v) => Some(v),
            None => None,
        }
    }
}

/// After a successful array write of `v` at `i`, a read at `i` yields `v`,
/// every other index is unaffected, and the length is kept; this composes
/// [`ArrayResource::write`] with [`ArrayResource::get`], whose contracts
/// speak of the buffer view below.
pub proof fn lemma_array_write_then_read<T>(s: Seq<T>, i: int, v: T)
    requires
        0 <= i < s.len(),
    ensures
        s.update(i, v)[i] == v,
        forall|j: int| 0 <= j < s.len() && j != i ==> s.update(i, v)[j] == s[j],
        s.update(i, v).len() == s.len(),
{
}

/// After a map write of `v` at `k`, a read at `k` yields `v` and every other
/// key is unaffected; this composes [`MapResource::write`] with
/// [`MapResource::get`], whose contracts speak of the map view below.
pub proof fn lemma_map_write_then_read<T>(m: Map<int, T>, k: int, v: T)
    ensures
        m.insert(k, v).contains_key(k),
        m.insert(k, v)[k] == v,
        forall|k2: int| k2 != k ==> m.insert(k, v).contains_key(k2) == m.contains_key(k2),
        forall|k2: int| k2 != k && m.contains_key(k2) ==> m.insert(k, v)[k2] == m[k2],
{
}

/// After `clear`, a map read finds no key: the cleared view is the empty
/// map, which holds nothing.
pub proof fn lemma_cleared_map_reads_none<T>(k: int)
    ensures
        !Map::<int, T>::empty().contains_key(k),
{
}

} // verus!
