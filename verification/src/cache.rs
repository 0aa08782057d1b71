//! Memoization of blockchain reads: a bounded least-recently-used
//! cache of blocks by hash, and a single-slot cache of the connector's
//! network identity. The surrounding process fetches from the
//! connector on a miss and stores the result; concurrent callers may
//! race to fill the same slot, which is harmless since block hashes
//! are content-derived and a key's value is identical by construction.

use lru::LruCache;
use std::num::NonZeroUsize;
use vstd::prelude::*;

use crate::hbit::Block;
use crate::ledger;

verus! {

#[verifier::external_type_specification]
#[verifier::external_body]
#[verifier::reject_recursive_types(K)]
#[verifier::reject_recursive_types(V)]
#[verifier::reject_recursive_types(S)]
pub struct ExLruCache<K, V, S>(LruCache<K, V, S>);

/// The concrete shape of the block cache: blocks keyed by their
/// 32-byte hash, hashed by std's randomly seeded hasher.
pub type BlockLru = LruCache<[u8; 32], Block, std::collections::hash_map::RandomState>;

/// What the block cache holds: each cached hash mapped to its block.
pub uninterp spec fn cached_blocks(c: BlockLru) -> Map<Seq<u8>, Block>;

/// The bound the block cache was created with.
pub uninterp spec fn cache_capacity(c: BlockLru) -> nat;

/// Relies on `lru::LruCache::with_hasher`: a fresh cache holds
/// nothing and keeps the given bound.
#[verifier::external_body]
fn lru_new(capacity: usize) -> (c: BlockLru)
    requires
        capacity >= 1,
    ensures
        cached_blocks(c) =~= Map::empty(),
        cache_capacity(c) == capacity,
{
    LruCache::with_hasher(
        NonZeroUsize::new(capacity).unwrap(),
        std::collections::hash_map::RandomState::new(),
    )
}

/// Relies on `lru::LruCache::get`: returns the value stored under the
/// key, if any, touching only recency — the contents stay as they are.
#[verifier::external_body]
fn lru_get(c: &mut BlockLru, key: &[u8; 32]) -> (r: Option<Block>)
    ensures
        cached_blocks(*final(c)) == cached_blocks(*old(c)),
        cache_capacity(*final(c)) == cache_capacity(*old(c)),
        r matches Some(b) ==> cached_blocks(*old(c)).contains_key(key@) && b == cached_blocks(
            *old(c),
        )[key@],
        r is None <==> !cached_blocks(*old(c)).contains_key(key@),
{
    match c.get(key) {
        Some(b) => Some(b.clone()),
        None => None,
    }
}

/// Relies on `lru::LruCache::put`: afterwards the key holds exactly
/// this value, and every other key still present held the same value
/// before — at most the least recently used entry was evicted to make
/// room, nothing is ever invented, and the cache never holds more
/// entries than its bound.
#[verifier::external_body]
fn lru_put(c: &mut BlockLru, key: [u8; 32], value: Block)
    ensures
        cache_capacity(*final(c)) == cache_capacity(*old(c)),
        cached_blocks(*final(c)).dom().finite(),
        cached_blocks(*final(c)).dom().len() <= cache_capacity(*old(c)),
        cached_blocks(*final(c)).contains_key(key@),
        cached_blocks(*final(c))[key@] == value,
        forall|k2: Seq<u8>|
            k2 != key@ && #[trigger] cached_blocks(*final(c)).contains_key(k2) ==> cached_blocks(
                *old(c),
            ).contains_key(k2) && cached_blocks(*final(c))[k2] == cached_blocks(*old(c))[k2],
{
    c.put(key, value);
}

/// The cache in front of a Bitcoin connector: blocks by hash, bounded
/// and least-recently-used, and the connector's network identity,
/// fetched once and reused for the connector's lifetime.
pub struct Cache {
    blocks: BlockLru,
    connected_network: Option<ledger::Bitcoin>,
}

impl Cache {
    /// The cached blocks, by hash.
    pub closed spec fn blocks_view(&self) -> Map<Seq<u8>, Block> {
        cached_blocks(self.blocks)
    }

    /// The cached network identity, if fetched already.
    pub closed spec fn network_view(&self) -> Option<ledger::Bitcoin> {
        self.connected_network
    }

    /// The bound the block cache was created with.
    pub closed spec fn capacity_view(&self) -> nat {
        cache_capacity(self.blocks)
    }

    /// A fresh cache of the given bounded capacity, holding nothing.
    pub fn new(capacity: usize) -> (r: Cache)
        requires
            capacity >= 1,
        ensures
            r.blocks_view() == Map::<Seq<u8>, Block>::empty(),
            r.network_view() is None,
            r.capacity_view() == capacity,
    {
        Cache { blocks: lru_new(capacity), connected_network: None }
    }

    /// The read side of the read-through: the cached block under this
    /// hash, or `None`, upon which the caller fetches from the
    /// connector and stores the result.
    pub fn lookup_block(&mut self, hash: &[u8; 32]) -> (r: Option<Block>)
        ensures
            final(self).blocks_view() == old(self).blocks_view(),
            final(self).network_view() == old(self).network_view(),
            final(self).capacity_view() == old(self).capacity_view(),
            r matches Some(b) ==> old(self).blocks_view().contains_key(hash@) && b == old(
                self,
            ).blocks_view()[hash@],
            r is None <==> !old(self).blocks_view().contains_key(hash@),
    {
        lru_get(&mut self.blocks, hash)
    }

    /// The write side of the read-through: stores a fetched block
    /// under its own hash. Storing the same block twice is permitted
    /// and harmless, and the cache stays within its bounded capacity,
    /// evicting the least recently used entry when full.
    pub fn store_block(&mut self, block: Block)
        ensures
            final(self).network_view() == old(self).network_view(),
            final(self).capacity_view() == old(self).capacity_view(),
            final(self).blocks_view().dom().finite(),
            final(self).blocks_view().dom().len() <= old(self).capacity_view(),
            final(self).blocks_view().contains_key(block.hash@),
            final(self).blocks_view()[block.hash@] == block,
            forall|k2: Seq<u8>|
                k2 != block.hash@ && #[trigger] final(self).blocks_view().contains_key(k2) ==> old(
                    self,
                ).blocks_view().contains_key(k2) && final(self).blocks_view()[k2] == old(
                    self,
                ).blocks_view()[k2],
    {
        let key = block.hash;
        lru_put(&mut self.blocks, key, block);
    }

    /// The cached network identity; `None` until the first fetch is
    /// recorded.
    pub fn network(&self) -> (r: Option<ledger::Bitcoin>)
        ensures
            r == self.network_view(),
    {
        self.connected_network
    }

    /// Records the connector's network identity, fetched once. A
    /// connector's identity is immutable for its lifetime, so a racing
    /// second fill writes the identical value.
    pub fn record_network(&mut self, network: ledger::Bitcoin)
        ensures
            final(self).network_view() == Some(network),
            final(self).blocks_view() == old(self).blocks_view(),
            final(self).capacity_view() == old(self).capacity_view(),
    {
        self.connected_network = Some(network);
    }
}

/// Cache transparency: against a fresh cache the first read of a hash
/// misses — forcing exactly one connector fetch — and once the fetched
/// block is stored, every further read of that hash hits and returns
/// the identical block without another fetch.
pub proof fn lemma_cache_transparent(h: Seq<u8>, b: Block)
    ensures
        !Map::<Seq<u8>, Block>::empty().contains_key(h),
        Map::<Seq<u8>, Block>::empty().insert(h, b).contains_key(h),
        Map::<Seq<u8>, Block>::empty().insert(h, b)[h] == b,
{
}

} // verus!
