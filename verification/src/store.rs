//! Sparse ordered columns: the component stores.
//!
//! A [`ComponentStore`] keeps `(entity index, value)` pairs strictly sorted
//! and unique by index, so lookups run by binary search. Its view is the map
//! from entity index to stored value; every operation is specified against
//! that map.

use vstd::prelude::*;

verus! {

/// The key of the entry at position `j`, as a mathematical integer.
pub(crate) open spec fn entry_key<C>(s: Seq<(usize, C)>, j: int) -> int {
    s[j].0 as int
}

/// Keys strictly ascending by position, hence unique.
pub(crate) open spec fn entries_sorted<C>(s: Seq<(usize, C)>) -> bool {
    forall|i: int, j: int|
        0 <= i < j < s.len() ==> #[trigger] entry_key(s, i) < #[trigger] entry_key(s, j)
}

/// Some entry carries the key `k`.
pub(crate) open spec fn seq_contains_key<C>(s: Seq<(usize, C)>, k: int) -> bool {
    exists|j: int| 0 <= j < s.len() && #[trigger] entry_key(s, j) == k
}

/// The value stored beside the key `k`; meaningful only where some entry
/// carries `k`.
pub(crate) open spec fn seq_value_at<C>(s: Seq<(usize, C)>, k: int) -> C {
    s[choose|j: int| 0 <= j < s.len() && #[trigger] entry_key(s, j) == k].1
}

/// The entries read as a map from key to value.
pub(crate) open spec fn seq_as_map<C>(s: Seq<(usize, C)>) -> Map<int, C> {
    Map::new(|k: int| seq_contains_key(s, k), |k: int| seq_value_at(s, k))
}

/// In a sorted entry sequence, a key appears at no more than one position.
proof fn lemma_index_unique<C>(s: Seq<(usize, C)>, i: int, j: int)
    requires
        entries_sorted(s),
        0 <= i < s.len(),
        0 <= j < s.len(),
        entry_key(s, i) == entry_key(s, j),
    ensures
        i == j,
{
    if i < j {
        assert(entry_key(s, i) < entry_key(s, j));
    }
    if j < i {
        assert(entry_key(s, j) < entry_key(s, i));
    }
}

/// The entry at position `j` is what the map view stores for its key.
proof fn lemma_mapped_at<C>(s: Seq<(usize, C)>, j: int)
    requires
        entries_sorted(s),
        0 <= j < s.len(),
    ensures
        seq_contains_key(s, entry_key(s, j)),
        seq_value_at(s, entry_key(s, j)) == s[j].1,
        seq_as_map(s).contains_key(entry_key(s, j)),
        seq_as_map(s)[entry_key(s, j)] == s[j].1,
{
    let k = entry_key(s, j);
    assert(seq_contains_key(s, k));
    let j2 = choose|j2: int| 0 <= j2 < s.len() && #[trigger] entry_key(s, j2) == k;
    lemma_index_unique(s, j, j2);
}

/// An empty entry sequence reads as the empty map.
proof fn lemma_empty_as_map<C>(s: Seq<(usize, C)>)
    requires
        s.len() == 0,
    ensures
        seq_as_map(s) == Map::<int, C>::empty(),
{
    assert(seq_as_map(s) =~= Map::<int, C>::empty());
}

/// Overwriting the value at a position whose key is `key` keeps the entries
/// sorted and turns the map view into an insertion at `key`.
proof fn lemma_update_as_map<C>(s: Seq<(usize, C)>, p: int, key: usize, value: C)
    requires
        entries_sorted(s),
        0 <= p < s.len(),
        entry_key(s, p) == key as int,
    ensures
        entries_sorted(s.update(p, (key, value))),
        seq_as_map(s.update(p, (key, value))) == seq_as_map(s).insert(key as int, value),
{
    let t = s.update(p, (key, value));
    assert forall|j: int| 0 <= j < t.len() implies #[trigger] entry_key(t, j) == entry_key(s, j) by {
    }
    assert forall|i: int, j: int| 0 <= i < j < t.len() implies #[trigger] entry_key(t, i)
        < #[trigger] entry_key(t, j) by {
        assert(entry_key(s, i) < entry_key(s, j));
    }
    assert forall|k: int| seq_contains_key(t, k) implies seq_contains_key(s, k) by {
        let j = choose|j: int| 0 <= j < t.len() && #[trigger] entry_key(t, j) == k;
        assert(entry_key(s, j) == k);
    }
    assert forall|k: int| seq_contains_key(s, k) implies seq_contains_key(t, k) by {
        let j = choose|j: int| 0 <= j < s.len() && #[trigger] entry_key(s, j) == k;
        assert(entry_key(t, j) == k);
    }
    assert forall|k: int| seq_contains_key(t, k) && k != key as int implies seq_value_at(t, k)
        == seq_value_at(s, k) by {
        let jt = choose|j: int| 0 <= j < t.len() && #[trigger] entry_key(t, j) == k;
        let js = choose|j: int| 0 <= j < s.len() && #[trigger] entry_key(s, j) == k;
        assert(entry_key(s, jt) == k);
        lemma_index_unique(s, jt, js);
        assert(entry_key(s, p) == key as int);
        assert(js != p);
    }
    lemma_mapped_at(t, p);
    assert(seq_as_map(t) =~= seq_as_map(s).insert(key as int, value));
}

/// Placing a fresh key at its sorted position keeps the entries sorted and
/// turns the map view into an insertion at that key; the key was absent.
proof fn lemma_insert_as_map<C>(s: Seq<(usize, C)>, p: int, key: usize, value: C)
    requires
        entries_sorted(s),
        0 <= p <= s.len(),
        forall|j: int| 0 <= j < p ==> #[trigger] entry_key(s, j) < key as int,
        forall|j: int| p <= j < s.len() ==> #[trigger] entry_key(s, j) > key as int,
    ensures
        entries_sorted(s.insert(p, (key, value))),
        seq_as_map(s.insert(p, (key, value))) == seq_as_map(s).insert(key as int, value),
        !seq_contains_key(s, key as int),
{
    let t = s.insert(p, (key, value));
    assert forall|j: int| 0 <= j < p implies #[trigger] entry_key(t, j) == entry_key(s, j) by {
    }
    assert(entry_key(t, p) == key as int);
    assert forall|j: int| p < j < t.len() implies #[trigger] entry_key(t, j) == entry_key(
        s,
        j - 1,
    ) by {
    }
    if seq_contains_key(s, key as int) {
        let j = choose|j: int| 0 <= j < s.len() && #[trigger] entry_key(s, j) == key as int;
        assert(false);
    }
    assert forall|i: int, j: int| 0 <= i < j < t.len() implies #[trigger] entry_key(t, i)
        < #[trigger] entry_key(t, j) by {
        if i < p && j < p {
            assert(entry_key(s, i) < entry_key(s, j));
        } else if i < p && j == p {
            assert(entry_key(s, i) < key as int);
        } else if i < p && j > p {
            assert(entry_key(s, i) < key as int);
            assert(entry_key(s, j - 1) > key as int);
        } else if i == p {
            assert(entry_key(s, j - 1) > key as int);
        } else {
            assert(entry_key(s, i - 1) < entry_key(s, j - 1));
        }
    }
    assert forall|k: int| seq_contains_key(t, k) implies (seq_contains_key(s, k) || k == key
        as int) by {
        let j = choose|j: int| 0 <= j < t.len() && #[trigger] entry_key(t, j) == k;
        if j < p {
            assert(entry_key(s, j) == k);
        } else if j > p {
            assert(entry_key(s, j - 1) == k);
        }
    }
    assert forall|k: int| seq_contains_key(s, k) implies seq_contains_key(t, k) by {
        let j = choose|j: int| 0 <= j < s.len() && #[trigger] entry_key(s, j) == k;
        if j < p {
            assert(entry_key(t, j) == k);
        } else {
            assert(entry_key(t, j + 1) == k);
        }
    }
    assert forall|k: int| seq_contains_key(s, k) implies seq_value_at(t, k) == seq_value_at(
        s,
        k,
    ) by {
        let js = choose|j: int| 0 <= j < s.len() && #[trigger] entry_key(s, j) == k;
        let jt = choose|j: int| 0 <= j < t.len() && #[trigger] entry_key(t, j) == k;
        if jt < p {
            lemma_index_unique(s, js, jt);
        } else if jt == p {
            assert(entry_key(s, js) == key as int);
            assert(false);
        } else {
            assert(entry_key(s, jt - 1) == k);
            lemma_index_unique(s, js, jt - 1);
        }
    }
    lemma_mapped_at(t, p);
    assert(seq_as_map(t) =~= seq_as_map(s).insert(key as int, value));
}

/// Binary search over sorted entries, after the shape of the standard
/// library's: `Ok` carries the position holding `key`, `Err` the position at
/// which `key` would be inserted to keep the entries sorted.
fn find<C>(entries: &Vec<(usize, C)>, key: usize) -> (r: Result<usize, usize>)
    requires
        entries_sorted(entries@),
    ensures
        match r {
            Ok(p) => p < entries@.len() && entry_key(entries@, p as int) == key as int,
            Err(p) => {
                &&& p <= entries@.len()
                &&& forall|j: int| 0 <= j < p ==> #[trigger] entry_key(entries@, j) < key as int
                &&& forall|j: int|
                    p <= j < entries@.len() ==> #[trigger] entry_key(entries@, j) > key as int
            },
        },
{
    let mut lo: usize = 0;
    let mut hi: usize = entries.len();
    while lo < hi
        invariant
            entries_sorted(entries@),
            lo <= hi <= entries@.len(),
            forall|j: int| 0 <= j < lo ==> #[trigger] entry_key(entries@, j) < key as int,
            forall|j: int| hi <= j < entries@.len() ==> #[trigger] entry_key(entries@, j) > key as int,
        decreases hi - lo,
    {
        let mid = lo + (hi - lo) / 2;
        let k = entries[mid].0;
        assert(entry_key(entries@, mid as int) == k as int);
        if k < key {
            assert forall|j: int| 0 <= j < mid + 1 implies #[trigger] entry_key(entries@, j)
                < key as int by {
                if j < mid as int {
                    assert(entry_key(entries@, j) < entry_key(entries@, mid as int));
                }
            }
            lo = mid + 1;
        } else if key < k {
            assert forall|j: int| mid <= j < entries@.len() implies #[trigger] entry_key(
                entries@,
                j,
            ) > key as int by {
                if j > mid as int {
                    assert(entry_key(entries@, mid as int) < entry_key(entries@, j));
                }
            }
            hi = mid;
        } else {
            return Ok(mid);
        }
    }
    Err(lo)
}

/// A sparse ordered column: one optionally-present value per entity index,
/// held as `(index, value)` pairs strictly sorted by index.
///
/// An entry may exist for an index that no identity registry holds; the
/// archetype operations that write and read single components pass through
/// to the column without consulting the registry.
pub struct ComponentStore<C> {
    entries: Vec<(usize, C)>,
}

impl<C> View for ComponentStore<C> {
    type V = Map<int, C>;

    /// The column read as a map from entity index to stored value.
    closed spec fn view(&self) -> Map<int, C> {
        seq_as_map(self.entries@)
    }
}

impl<C> ComponentStore<C> {
    #[verifier::type_invariant]
    spec fn wf(self) -> bool {
        entries_sorted(self.entries@)
    }

    /// Creates an empty column.
    pub fn new() -> (r: Self)
        ensures
            r@ == Map::<int, C>::empty(),
    {
        let entries: Vec<(usize, C)> = Vec::new();
        proof {
            lemma_empty_as_map(entries@);
        }
        ComponentStore { entries }
    }

    /// Looks up the value stored for `index`: present if and only if the
    /// column holds an entry for it.
    pub fn get(&self, index: usize) -> (r: Option<&C>)
        ensures
            match r {
                Some(v) => self@.contains_key(index as int) && *v == self@[index as int],
                None => !self@.contains_key(index as int),
            },
    {
        proof {
            use_type_invariant(self);
        }
        match find(&self.entries, index) {
            Ok(p) => {
                proof {
                    lemma_mapped_at(self.entries@, p as int);
                }
                Some(&self.entries[p].1)
            },
            Err(_) => {
                proof {
                    if seq_contains_key(self.entries@, index as int) {
                        let j = choose|j: int|
                            0 <= j < self.entries@.len() && #[trigger] entry_key(self.entries@, j)
                                == index as int;
                        assert(false);
                    }
                }
                None
            },
        }
    }

    /// Binary-searches for `index`: if an entry exists, overwrites its value
    /// in place; otherwise inserts a new pair at the sorted position. Always
    /// succeeds, and returns the value previously stored, if any.
    pub fn insert_or_update(&mut self, index: usize, value: C) -> (prev: Option<C>)
        ensures
            final(self)@ == old(self)@.insert(index as int, value),
            match prev {
                Some(p) => old(self)@.contains_key(index as int) && p == old(self)@[index as int],
                None => !old(self)@.contains_key(index as int),
            },
    {
        proof {
            use_type_invariant(&*self);
        }
        let ghost s_old = self.entries@;
        let mut entries: Vec<(usize, C)> = Vec::new();
        core::mem::swap(&mut entries, &mut self.entries);
        let prev: Option<C> = match find(&entries, index) {
            Ok(p) => {
                proof {
                    lemma_mapped_at(s_old, p as int);
                }
                let pair = entries.remove(p);
                entries.insert(p, (index, value));
                proof {
                    assert(entries@ =~= s_old.update(p as int, (index, value)));
                    lemma_update_as_map(s_old, p as int, index, value);
                }
                Some(pair.1)
            },
            Err(p) => {
                entries.insert(p, (index, value));
                proof {
                    lemma_insert_as_map(s_old, p as int, index, value);
                }
                None
            },
        };
        self.entries = entries;
        prev
    }

    /// Removes every entry; the column reads as the empty map afterwards.
    pub fn clear(&mut self)
        ensures
            final(self)@ == Map::<int, C>::empty(),
    {
        self.entries = Vec::new();
        proof {
            lemma_empty_as_map(self.entries@);
        }
    }
}

} // verus!
