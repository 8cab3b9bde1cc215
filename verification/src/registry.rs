use vstd::prelude::*;
use crate::address::Address;

verus! {

/// One slot of a registry: a record and the address it is kept under.
#[derive(Debug, PartialEq, Eq)]
pub struct Entry<V> {
    pub key: Address,
    pub value: V,
}

/// Whether slot `i` of `entries` holds address `k`.
spec fn holds<V>(entries: Seq<Entry<V>>, i: int, k: Address) -> bool {
    0 <= i < entries.len() && entries[i].key == k
}

/// No address is kept twice.
spec fn distinct<V>(entries: Seq<Entry<V>>) -> bool {
    forall|i: int, j: int| 0 <= i < j < entries.len() ==> entries[i].key != entries[j].key
}

/// The map from the addresses kept in `entries` to their records.
spec fn map_of<V>(entries: Seq<Entry<V>>) -> Map<Address, V> {
    Map::new(
        |k: Address| exists|i: int| holds(entries, i, k),
        |k: Address| entries[choose|i: int| holds(entries, i, k)].value,
    )
}

/// Where no address is kept twice, every slot is what the map shows for its
/// address.
proof fn lemma_slot<V>(entries: Seq<Entry<V>>, i: int)
    requires
        distinct(entries),
        0 <= i < entries.len(),
    ensures
        map_of(entries).contains_key(entries[i].key),
        map_of(entries)[entries[i].key] == entries[i].value,
{
    let k = entries[i].key;
    assert(holds(entries, i, k));
    let c = choose|c: int| holds(entries, c, k);
    assert(holds(entries, c, k));
    assert(c == i);
}

/// Writing slot `i` anew under the address it holds replaces the record.
proof fn lemma_update<V>(entries: Seq<Entry<V>>, i: int, value: V)
    requires
        distinct(entries),
        0 <= i < entries.len(),
    ensures
        distinct(entries.update(i, Entry { key: entries[i].key, value })),
        map_of(entries.update(i, Entry { key: entries[i].key, value })) == map_of(entries).insert(
            entries[i].key,
            value,
        ),
{
    let key = entries[i].key;
    let after = entries.update(i, Entry { key, value });
    assert(distinct(after));
    assert forall|k: Address| #[trigger] map_of(after).contains_key(k) == map_of(entries).insert(
        key,
        value,
    ).contains_key(k) by {
        if map_of(after).contains_key(k) {
            let j = choose|j: int| holds(after, j, k);
            lemma_slot(entries, j);
        }
        if map_of(entries).insert(key, value).contains_key(k) {
            if k == key {
                assert(holds(after, i, k));
            } else {
                let j = choose|j: int| holds(entries, j, k);
                assert(holds(after, j, k));
            }
        }
    }
    assert forall|k: Address| map_of(after).contains_key(k) implies #[trigger] map_of(after)[k] == map_of(
        entries,
    ).insert(key, value)[k] by {
        let j = choose|j: int| holds(after, j, k);
        lemma_slot(after, j);
        if j != i {
            lemma_slot(entries, j);
        }
    }
    assert(map_of(after) =~= map_of(entries).insert(key, value));
}

/// A new slot for an address that is not kept yet adds the record.
proof fn lemma_push<V>(entries: Seq<Entry<V>>, key: Address, value: V)
    requires
        distinct(entries),
        !map_of(entries).contains_key(key),
    ensures
        distinct(entries.push(Entry { key, value })),
        map_of(entries.push(Entry { key, value })) == map_of(entries).insert(key, value),
{
    let after = entries.push(Entry { key, value });
    let n = entries.len() as int;
    assert forall|i: int, j: int| 0 <= i < j < after.len() implies after[i].key != after[j].key by {
        if j == n {
            lemma_slot(entries, i);
        }
    }
    assert forall|k: Address| #[trigger] map_of(after).contains_key(k) == map_of(entries).insert(
        key,
        value,
    ).contains_key(k) by {
        if map_of(after).contains_key(k) {
            let j = choose|j: int| holds(after, j, k);
            if j < n {
                lemma_slot(entries, j);
            }
        }
        if map_of(entries).insert(key, value).contains_key(k) {
            if k == key {
                assert(holds(after, n, k));
            } else {
                let j = choose|j: int| holds(entries, j, k);
                assert(holds(after, j, k));
            }
        }
    }
    assert forall|k: Address| map_of(after).contains_key(k) implies #[trigger] map_of(after)[k] == map_of(
        entries,
    ).insert(key, value)[k] by {
        let j = choose|j: int| holds(after, j, k);
        lemma_slot(after, j);
        if j < n {
            lemma_slot(entries, j);
        }
    }
    assert(map_of(after) =~= map_of(entries).insert(key, value));
}

/// Dropping slot `i` drops the record kept under its address.
proof fn lemma_remove<V>(entries: Seq<Entry<V>>, i: int)
    requires
        distinct(entries),
        0 <= i < entries.len(),
    ensures
        distinct(entries.remove(i)),
        map_of(entries.remove(i)) == map_of(entries).remove(entries[i].key),
{
    let key = entries[i].key;
    let after = entries.remove(i);
    assert(distinct(after));
    assert forall|k: Address| #[trigger] map_of(after).contains_key(k) == map_of(entries).remove(key).contains_key(
        k,
    ) by {
        if map_of(after).contains_key(k) {
            let j = choose|j: int| holds(after, j, k);
            let from = if j < i {
                j
            } else {
                j + 1
            };
            lemma_slot(entries, from);
        }
        if map_of(entries).remove(key).contains_key(k) {
            let j = choose|j: int| holds(entries, j, k);
            if j < i {
                assert(holds(after, j, k));
            } else {
                assert(j != i);
                assert(holds(after, j - 1, k));
            }
        }
    }
    assert forall|k: Address| map_of(after).contains_key(k) implies #[trigger] map_of(after)[k] == map_of(
        entries,
    ).remove(key)[k] by {
        let j = choose|j: int| holds(after, j, k);
        lemma_slot(after, j);
        let from = if j < i {
            j
        } else {
            j + 1
        };
        lemma_slot(entries, from);
    }
    assert(map_of(after) =~= map_of(entries).remove(key));
}

/// The slot of `entries` that holds `key`, if any.
fn position<V>(entries: &Vec<Entry<V>>, key: &Address) -> (r: Option<usize>)
    ensures
        match r {
            Some(i) => holds(entries@, i as int, *key),
            None => !map_of(entries@).contains_key(*key),
        },
{
    let mut i: usize = 0;
    while i < entries.len()
        invariant
            i <= entries.len(),
            forall|j: int| 0 <= j < i ==> entries[j].key != *key,
        decreases entries.len() - i,
    {
        if entries[i].key == *key {
            return Some(i);
        }
        i += 1;
    }
    proof {
        assert(forall|j: int| !holds(entries@, j, *key));
    }
    None
}

/// A keyed store of records, one per address at most. Its view is the map
/// from the addresses in use to their records. Two registries compare equal
/// where they keep the same records in the same order.
#[derive(Debug, PartialEq, Eq)]
pub struct Registry<V> {
    entries: Vec<Entry<V>>,
}

impl<V> Registry<V> {
    /// No address is kept twice.
    #[verifier::type_invariant]
    spec fn inv(self) -> bool {
        distinct(self.entries@)
    }

    /// The map from addresses to records.
    pub closed spec fn view(&self) -> Map<Address, V> {
        map_of(self.entries@)
    }
}

impl<V: Copy> Registry<V> {
    /// An empty registry.
    pub fn new() -> (r: Self)
        ensures
            r@ == Map::<Address, V>::empty(),
    {
        let r = Registry { entries: Vec::new() };
        proof {
            assert(r@ =~= Map::<Address, V>::empty());
        }
        r
    }

    /// The record kept under `key`, if any.
    pub fn get(&self, key: &Address) -> (r: Option<V>)
        ensures
            r == (if self@.contains_key(*key) {
                Some(self@[*key])
            } else {
                None
            }),
    {
        proof {
            use_type_invariant(&*self);
        }
        match position(&self.entries, key) {
            Some(i) => {
                proof {
                    lemma_slot(self.entries@, i as int);
                }
                Some(self.entries[i].value)
            },
            None => None,
        }
    }

    /// Keeps `value` under `key`, in place of what was there.
    pub fn put(&mut self, key: Address, value: V)
        ensures
            final(self)@ == old(self)@.insert(key, value),
    {
        proof {
            use_type_invariant(&*self);
        }
        let mut entries: Vec<Entry<V>> = Vec::new();
        core::mem::swap(&mut entries, &mut self.entries);
        match position(&entries, &key) {
            Some(i) => {
                proof {
                    lemma_update(entries@, i as int, value);
                }
                entries.set(i, Entry { key, value });
            },
            None => {
                proof {
                    lemma_push(entries@, key, value);
                }
                entries.push(Entry { key, value });
            },
        }
        self.entries = entries;
    }

    /// Drops the record kept under `key`, if there is one.
    pub fn take(&mut self, key: &Address)
        ensures
            final(self)@ == old(self)@.remove(*key),
    {
        proof {
            use_type_invariant(&*self);
        }
        let mut entries: Vec<Entry<V>> = Vec::new();
        core::mem::swap(&mut entries, &mut self.entries);
        match position(&entries, key) {
            Some(i) => {
                proof {
                    lemma_remove(entries@, i as int);
                }
                entries.remove(i);
            },
            None => {
                proof {
                    assert(map_of(entries@) =~= map_of(entries@).remove(*key));
                }
            },
        }
        self.entries = entries;
    }
}

impl<V: Copy> Clone for Registry<V> {
    /// A registry that keeps the same records.
    fn clone(&self) -> (copy: Self)
        ensures
            copy@ == self@,
    {
        proof {
            use_type_invariant(&*self);
        }
        let mut entries: Vec<Entry<V>> = Vec::new();
        let mut i: usize = 0;
        while i < self.entries.len()
            invariant
                i <= self.entries.len(),
                entries@ == self.entries@.subrange(0, i as int),
            decreases self.entries.len() - i,
        {
            entries.push(Entry { key: self.entries[i].key, value: self.entries[i].value });
            i += 1;
        }
        proof {
            assert(entries@ =~= self.entries@);
        }
        Registry { entries }
    }
}

} // verus!
