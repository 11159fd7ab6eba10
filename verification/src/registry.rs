//! The registry: which supplier stands behind which key.

use std::sync::Arc;
use vstd::hash_map::StringHashMap;
use vstd::prelude::*;

verus! {

/// The registry that a demand resolves against: the base registry, with the
/// entries of the overrides laid over it where the demand carries any. Where
/// both hold a key, the override wins.
pub open spec fn effective_registry<H: ?Sized>(
    base: Map<Seq<char>, Arc<H>>,
    overrides: Option<Map<Seq<char>, Arc<H>>>,
) -> Map<Seq<char>, Arc<H>> {
    match overrides {
        Some(over) => base.union_prefer_right(over),
        None => base,
    }
}

/// Whether `k` is among the first `n` keys of a key list.
spec fn listed(keys: Seq<String>, n: int, k: Seq<char>) -> bool {
    exists|j: int| 0 <= j < n && j < keys.len() && (#[trigger] keys[j])@ == k
}

/// Looking at one more key of the list adds that key and no other.
proof fn lemma_listed_next(keys: Seq<String>, n: int, k: Seq<char>)
    requires
        0 <= n < keys.len(),
    ensures
        listed(keys, n + 1, k) <==> (listed(keys, n, k) || keys[n]@ == k),
{
    if listed(keys, n + 1, k) {
        let j = choose|j: int| 0 <= j < n + 1 && j < keys.len() && (#[trigger] keys[j])@ == k;
        if j < n {
            assert(listed(keys, n, k));
        }
    }
    if listed(keys, n, k) {
        let j = choose|j: int| 0 <= j < n && j < keys.len() && (#[trigger] keys[j])@ == k;
        assert(keys[j]@ == k);
    }
    if keys[n]@ == k {
        assert(listed(keys, n + 1, k));
    }
}

/// A mapping from string keys to shared suppliers of kind `H`.
///
/// Its view is the mathematical map from a key's characters to the supplier
/// registered under it. Besides the hashed entries the registry keeps a list
/// of its keys, which is what lets a registry be copied entry by entry.
#[verifier::reject_recursive_types(H)]
pub struct SupplierRegistry<H: ?Sized> {
    entries: StringHashMap<Arc<H>>,
    keys: Vec<String>,
}

impl<H: ?Sized> View for SupplierRegistry<H> {
    type V = Map<Seq<char>, Arc<H>>;

    closed spec fn view(&self) -> Self::V {
        self.entries@
    }
}

impl<H: ?Sized> SupplierRegistry<H> {
    /// Every key that has an entry stands in the key list.
    #[verifier::type_invariant]
    spec fn every_key_listed(&self) -> bool {
        forall|k: Seq<char>|
            self.entries@.contains_key(k) ==> listed(self.keys@, self.keys@.len() as int, k)
    }

    /// A registry without entries.
    pub fn new() -> (registry: Self)
        ensures
            registry@ == Map::<Seq<char>, Arc<H>>::empty(),
    {
        SupplierRegistry { entries: StringHashMap::new(), keys: Vec::new() }
    }

    /// Registers `supplier` under `key`, in place of whatever stood there.
    pub fn insert(&mut self, key: String, supplier: Arc<H>)
        ensures
            final(self)@ == old(self)@.insert(key@, supplier),
    {
        let mut taken = SupplierRegistry::new();
        std::mem::swap(self, &mut taken);
        proof {
            use_type_invariant(&taken);
        }
        let SupplierRegistry { mut entries, mut keys } = taken;
        let ghost before = entries@;
        let ghost known = keys@;
        let ghost name = key@;
        if !entries.contains_key(key.as_str()) {
            keys.push(key.clone());
        }
        entries.insert(key, supplier);
        proof {
            assert forall|k: Seq<char>| entries@.contains_key(k) implies listed(
                keys@,
                keys@.len() as int,
                k,
            ) by {
                if before.contains_key(k) {
                    let j = choose|j: int| 0 <= j < known.len() && (#[trigger] known[j])@ == k;
                    assert(keys@[j]@ == k);
                } else {
                    assert(keys@[keys@.len() - 1]@ == name);
                }
            }
        }
        *self = SupplierRegistry { entries, keys };
    }

    /// The supplier registered under `key`, if there is one.
    pub fn get(&self, key: &str) -> (found: Option<&Arc<H>>)
        ensures
            match found {
                Some(supplier) => self@.contains_key(key@) && *supplier == self@[key@],
                None => !self@.contains_key(key@),
            },
    {
        self.entries.get(key)
    }

    /// Whether a supplier is registered under `key`.
    pub fn contains_key(&self, key: &str) -> (held: bool)
        ensures
            held == self@.contains_key(key@),
    {
        self.entries.contains_key(key)
    }

    /// The number of keys that have a supplier.
    pub fn len(&self) -> (n: usize)
        ensures
            n == self@.len(),
    {
        self.entries.len()
    }

    /// Whether no key has a supplier.
    pub fn is_empty(&self) -> (empty: bool)
        ensures
            empty == self@.is_empty(),
    {
        self.entries.is_empty()
    }

    /// Copies every entry of `source` into this registry, over whatever stood
    /// under the same key.
    fn absorb(&mut self, source: &Self)
        ensures
            final(self)@ == old(self)@.union_prefer_right(source@),
    {
        proof {
            use_type_invariant(source);
        }
        let ghost start = self@;
        let mut i: usize = 0;
        while i < source.keys.len()
            invariant
                i <= source.keys@.len(),
                forall|k: Seq<char>| #[trigger]
                    self@.contains_key(k) <==> (start.contains_key(k) || (
                    source@.contains_key(k) && listed(source.keys@, i as int, k))),
                forall|k: Seq<char>| #[trigger]
                    self@.contains_key(k) ==> self@[k] == (if source@.contains_key(k) && listed(
                        source.keys@,
                        i as int,
                        k,
                    ) {
                        source@[k]
                    } else {
                        start[k]
                    }),
            decreases source.keys@.len() - i,
        {
            let key = &source.keys[i];
            match source.entries.get(key.as_str()) {
                Some(supplier) => {
                    self.insert(key.clone(), supplier.clone());
                },
                None => {},
            }
            proof {
                assert forall|k: Seq<char>|
                    listed(source.keys@, i + 1, k) <==> (listed(source.keys@, i as int, k)
                        || source.keys@[i as int]@ == k) by {
                    lemma_listed_next(source.keys@, i as int, k);
                }
            }
            i += 1;
        }
        assert(self@ =~= start.union_prefer_right(source@));
    }

    /// A new registry that holds the entries of this one with those of
    /// `overrides` laid over them: where both hold a key, the entry of
    /// `overrides` stands. Neither registry is changed.
    pub fn merge_overrides(&self, overrides: &Self) -> (merged: Self)
        ensures
            merged@ == self@.union_prefer_right(overrides@),
    {
        let mut merged = SupplierRegistry::new();
        merged.absorb(self);
        merged.absorb(overrides);
        assert(merged@ =~= self@.union_prefer_right(overrides@));
        merged
    }
}

} // verus!
