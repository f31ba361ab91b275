//! The identity cache: a bounded least-recently-used cache from encoded bytes
//! to their digest.

use crate::digest::{keccak256, keccak256_digest};
use crate::primitives::H256;
use lru::LruCache;
use vstd::prelude::*;

verus! {

/// `lru::LruCache`, carried as an opaque value.
#[verifier::external_type_specification]
#[verifier::external_body]
#[verifier::reject_recursive_types(K)]
#[verifier::reject_recursive_types(V)]
#[verifier::reject_recursive_types(S)]
pub struct ExLruCache<K, V, S>(lru::LruCache<K, V, S>);

/// `lru::DefaultHasher`, the hasher that `LruCache::new` gives its table.
#[verifier::external_type_specification]
#[verifier::external_body]
pub struct ExDefaultHasher(lru::DefaultHasher);

/// The entries of the cache, each a key with its value, most recently used
/// first.
pub uninterp spec fn lru_entries(cache: LruCache<Vec<u8>, H256>) -> Seq<(Seq<u8>, H256)>;

/// The number of entries that the cache was made to hold.
pub uninterp spec fn lru_capacity(cache: LruCache<Vec<u8>, H256>) -> nat;

/// The keys of the entries, in the entries' order.
pub open spec fn entry_keys(entries: Seq<(Seq<u8>, H256)>) -> Seq<Seq<u8>> {
    entries.map_values(|entry: (Seq<u8>, H256)| entry.0)
}

/// The entries after a new entry came in at the front: where the cache was
/// full, its least recently used entry has left.
pub open spec fn entries_after_insert(
    entries: Seq<(Seq<u8>, H256)>,
    capacity: nat,
    key: Seq<u8>,
    value: H256,
) -> Seq<(Seq<u8>, H256)> {
    if entries.len() == capacity {
        seq![(key, value)] + entries.drop_last()
    } else {
        seq![(key, value)] + entries
    }
}

/// The largest capacity that a cache can be made with. The table for all
/// entries is allocated when the cache is made; up to this limit its size can
/// be computed on every target.
pub const MAX_CAPACITY: usize = 0x10_0000;

/// `LruCache::new`: an empty cache that holds at most `capacity` entries.
/// The call panics where the size of its table overflows, which the limit
/// rules out.
#[verifier::external_body]
pub(crate) fn lru_new(capacity: usize) -> (cache: LruCache<Vec<u8>, H256>)
    requires
        0 < capacity <= MAX_CAPACITY,
    ensures
        lru_entries(cache) == Seq::<(Seq<u8>, H256)>::empty(),
        lru_capacity(cache) == capacity,
{
    LruCache::new(std::num::NonZeroUsize::new(capacity).unwrap())
}

/// `LruCache::get_or_insert`: where an entry has the key, its value is
/// returned and the entry moves to the front. Where none has it, `make` is
/// called once, and its result is returned and enters at the front with the
/// key; a full cache first drops its last entry. The call does not unwind:
/// within the capacity limit the size of its table never overflows.
#[verifier::external_body]
pub(crate) fn lru_get_or_insert<F: FnOnce() -> H256>(
    cache: &mut LruCache<Vec<u8>, H256>,
    key: Vec<u8>,
    make: F,
) -> (value: H256)
    requires
        make.requires(()),
        lru_capacity(*old(cache)) <= MAX_CAPACITY,
    ensures
        lru_capacity(*final(cache)) == lru_capacity(*old(cache)),
        match entry_keys(lru_entries(*old(cache))).index_of_first(key@) {
            Some(i) => {
                &&& value == lru_entries(*old(cache))[i].1
                &&& lru_entries(*final(cache)) == seq![lru_entries(*old(cache))[i]] + lru_entries(
                    *old(cache),
                ).remove(i)
            },
            None => {
                &&& make.ensures((), value)
                &&& lru_entries(*final(cache)) == entries_after_insert(
                    lru_entries(*old(cache)),
                    lru_capacity(*old(cache)),
                    key@,
                    value,
                )
            },
        },
    no_unwind
{
    *cache.get_or_insert(key, make)
}

/// `LruCache::len`: the number of entries.
#[verifier::external_body]
pub(crate) fn lru_len(cache: &LruCache<Vec<u8>, H256>) -> (len: usize)
    ensures
        len == lru_entries(*cache).len(),
{
    cache.len()
}

/// `LruCache::contains`: whether an entry has the key. The order of the
/// entries stays as it is.
#[verifier::external_body]
pub(crate) fn lru_contains(cache: &LruCache<Vec<u8>, H256>, key: &[u8]) -> (found: bool)
    ensures
        found == entry_keys(lru_entries(*cache)).contains(key@),
{
    cache.contains(key)
}

/// The size of the cache that `HeaderHashCache::new` makes.
pub const HEADER_HASH_CACHE_SIZE: usize = 100;

/// The keys of a cache after `key` was looked up or inserted: `key` stands
/// first. Where it was present the other keys keep their order. Where it was
/// absent and the cache was full, the last key has left.
pub open spec fn keys_after_use(keys: Seq<Seq<u8>>, capacity: nat, key: Seq<u8>) -> Seq<Seq<u8>> {
    match keys.index_of_first(key) {
        Some(i) => seq![key] + keys.remove(i),
        None => if keys.len() >= capacity {
            seq![key] + keys.drop_last()
        } else {
            seq![key] + keys
        },
    }
}

/// What holds of the entries of every identity cache: no key occurs twice,
/// there are no more entries than the capacity allows, and each key is stored
/// with its own digest.
pub open spec fn entries_wf(entries: Seq<(Seq<u8>, H256)>, capacity: nat) -> bool {
    &&& 0 < capacity <= MAX_CAPACITY
    &&& entries.len() <= capacity
    &&& entry_keys(entries).no_duplicates()
    &&& forall|i: int|
        0 <= i < entries.len() ==> (#[trigger] entries[i]).1@ == keccak256(entries[i].0)
}

/// A cache within its capacity stays within it: whichever key is used, no
/// more than `capacity` keys are retained, the used key is the first of
/// them, and no key occurs twice.
pub proof fn lemma_keys_after_use_bounded(keys: Seq<Seq<u8>>, capacity: nat, key: Seq<u8>)
    requires
        0 < capacity,
        keys.len() <= capacity,
        keys.no_duplicates(),
    ensures
        0 < keys_after_use(keys, capacity, key).len() <= capacity,
        keys_after_use(keys, capacity, key)[0] == key,
        keys_after_use(keys, capacity, key).no_duplicates(),
{
    keys.index_of_first_ensures(key);
    let after = keys_after_use(keys, capacity, key);
    assert forall|a: int, b: int| 0 <= a < b < after.len() implies after[a] != after[b] by {
        match keys.index_of_first(key) {
            Some(i) => {
                let ia = if a == 0 { i } else if a <= i { a - 1 } else { a };
                let ib = if b <= i { b - 1 } else { b };
                assert(after[a] == keys[ia] && after[b] == keys[ib]);
            },
            None => {
                assert(after[b] == keys[b - 1]);
                if a > 0 {
                    assert(after[a] == keys[a - 1]);
                } else {
                    assert(keys.contains(keys[b - 1]));
                }
            },
        }
    }
}

/// Looks `encoded` up in `entries` and stores its digest there where it is
/// absent.
fn entries_digest_of(
    entries: &mut LruCache<Vec<u8>, H256>,
    key: Vec<u8>,
    encoded: &[u8],
) -> (digest: H256)
    requires
        entries_wf(lru_entries(*old(entries)), lru_capacity(*old(entries))),
        key@ == encoded@,
    ensures
        entries_wf(lru_entries(*final(entries)), lru_capacity(*final(entries))),
        lru_capacity(*final(entries)) == lru_capacity(*old(entries)),
        digest@ == keccak256(encoded@),
        entry_keys(lru_entries(*final(entries))) == keys_after_use(
            entry_keys(lru_entries(*old(entries))),
            lru_capacity(*old(entries)),
            encoded@,
        ),
    no_unwind
{
    let make = || -> (made: H256)
        ensures
            made@ == keccak256(encoded@),
        { keccak256_digest(encoded) };
    let ghost before = lru_entries(*entries);
    let ghost capacity = lru_capacity(*entries);
    let digest = lru_get_or_insert(entries, key, make);
    proof {
        let after = lru_entries(*entries);
        entry_keys(before).index_of_first_ensures(encoded@);
        lemma_keys_after_use_bounded(entry_keys(before), capacity, encoded@);
        match entry_keys(before).index_of_first(encoded@) {
            Some(i) => {
                assert(entry_keys(after) =~= seq![encoded@] + entry_keys(before).remove(i));
                assert forall|a: int| 0 <= a < after.len() implies (#[trigger] after[a]).1@
                    == keccak256(after[a].0) by {
                    let from = if a == 0 { i } else if a <= i { a - 1 } else { a };
                    assert(after[a] == before[from]);
                }
            },
            None => {
                let kept = if before.len() == capacity { before.drop_last() } else { before };
                assert(entry_keys(after) =~= seq![encoded@] + entry_keys(kept));
                assert(entry_keys(kept) =~= if before.len() == capacity {
                    entry_keys(before).drop_last()
                } else {
                    entry_keys(before)
                });
                assert forall|a: int| 0 <= a < after.len() implies (#[trigger] after[a]).1@
                    == keccak256(after[a].0) by {
                    if a > 0 {
                        assert(after[a] == before[a - 1]);
                    }
                }
            },
        }
    }
    digest
}

/// A bounded cache from encoded bytes to their Keccak-256 digest. When a new
/// key comes in at capacity, the key that has gone longest without a lookup
/// leaves.
pub struct HeaderHashCache {
    entries: LruCache<Vec<u8>, H256>,
    capacity: usize,
}

impl View for HeaderHashCache {
    type V = Seq<Seq<u8>>;

    /// The keys that the cache holds, most recently used first.
    closed spec fn view(&self) -> Seq<Seq<u8>> {
        entry_keys(lru_entries(self.entries))
    }
}

impl HeaderHashCache {
    #[verifier::type_invariant]
    spec fn inv(self) -> bool {
        &&& entries_wf(lru_entries(self.entries), lru_capacity(self.entries))
        &&& lru_capacity(self.entries) == self.capacity
    }

    /// The largest number of keys that the cache retains.
    pub closed spec fn spec_capacity(&self) -> usize {
        self.capacity
    }

    /// The largest number of keys that the cache retains.
    #[verifier::when_used_as_spec(spec_capacity)]
    pub fn capacity(&self) -> (capacity: usize)
        ensures
            capacity == self.capacity(),
            0 < capacity <= MAX_CAPACITY,
    {
        proof {
            use_type_invariant(self);
        }
        self.capacity
    }

    /// An empty cache of the default size.
    pub fn new() -> (cache: HeaderHashCache)
        ensures
            cache@ == Seq::<Seq<u8>>::empty(),
            cache.capacity() == HEADER_HASH_CACHE_SIZE,
    {
        HeaderHashCache {
            entries: lru_new(HEADER_HASH_CACHE_SIZE),
            capacity: HEADER_HASH_CACHE_SIZE,
        }
    }

    /// An empty cache that retains at most `capacity` keys, where `capacity`
    /// is positive and no larger than `MAX_CAPACITY`.
    pub fn with_capacity(capacity: usize) -> (made: Option<HeaderHashCache>)
        ensures
            made is Some <==> 0 < capacity <= MAX_CAPACITY,
            made matches Some(cache) ==> cache@ == Seq::<Seq<u8>>::empty() && cache.capacity()
                == capacity,
    {
        if capacity == 0 || capacity > MAX_CAPACITY {
            None
        } else {
            Some(HeaderHashCache { entries: lru_new(capacity), capacity })
        }
    }

    /// The number of keys that the cache holds. It never exceeds the
    /// capacity.
    pub fn len(&self) -> (len: usize)
        ensures
            len == self@.len(),
            len <= self.capacity(),
    {
        proof {
            use_type_invariant(self);
        }
        lru_len(&self.entries)
    }

    /// Whether the cache holds the digest of `encoded`. The order of the
    /// keys stays as it is.
    pub fn contains(&self, encoded: &[u8]) -> (found: bool)
        ensures
            found == self@.contains(encoded@),
    {
        lru_contains(&self.entries, encoded)
    }

    /// The Keccak-256 digest of `encoded`: taken from the cache where the
    /// cache holds it, else computed and stored. Either way `encoded`
    /// becomes the most recently used key.
    pub fn digest_of(&mut self, encoded: &[u8]) -> (digest: H256)
        ensures
            digest@ == keccak256(encoded@),
            final(self)@ == keys_after_use(old(self)@, old(self).capacity() as nat, encoded@),
            final(self).capacity() == old(self).capacity(),
            final(self)@.len() <= final(self).capacity(),
            final(self)@.no_duplicates(),
    {
        proof {
            use_type_invariant(&*self);
        }
        let key = vstd::slice::slice_to_vec(encoded);
        entries_digest_of(&mut self.entries, key, encoded)
    }
}

} // verus!
