//! Bounded, time-limited in-memory store of small-file contents.
//!
//! Entries are keyed by canonical path and validated against the file's
//! on-disk modification time: a stored entry counts only while that time is
//! unchanged, so external modification is detected without a filesystem
//! watch.  Capacity eviction and time-to-live expiry are delegated to
//! `moka`'s synchronous cache behind a narrow trusted boundary; the
//! validation logic on top of it is verified.  A miss is never an error,
//! only the signal to read the file again.
//!
//! A `DeliveryCache` value is a handle onto a store that clones of the
//! handle share, so concurrent requests for different paths proceed without
//! a serializing lock of this library's own.  The contracts therefore treat
//! the contents as re-sampled at every call: each operation goes through
//! `&mut self` and speaks only of the contents it observed, never of what a
//! later call will find — between two calls, another handle, expiry or
//! eviction may have changed the store.  The filesystem stays the source of
//! truth; the cache is a best-effort accelerator.

use vstd::prelude::*;

verus! {

/// A cached file: its full contents and the on-disk modification time
/// (milliseconds) they were read at.
#[derive(Clone, Debug)]
pub struct CachedFile {
    pub data: Vec<u8>,
    pub modified: u64,
}

/// The specification-level image of a cache entry.
pub struct CachedFileModel {
    pub data: Seq<u8>,
    pub modified: u64,
}

impl CachedFile {
    pub open spec fn model(self) -> CachedFileModel {
        CachedFileModel { data: self.data@, modified: self.modified }
    }
}

/// A bounded mapping from canonical path to cache entry, with a capacity
/// limit (entry count) and an entry lifetime, both fixed at construction.
#[verifier::external_body]
pub struct DeliveryCache {
    inner: moka::sync::Cache<String, CachedFile>,
}

impl Clone for DeliveryCache {
    /// Relies on moka's `Cache::clone`: the clone is another handle onto
    /// the same shared store, built with the same capacity.  Writes through
    /// one handle are seen through the other, which is why no handle's
    /// contract speaks of contents beyond the call that observed them.
    #[verifier::external_body]
    fn clone(&self) -> (r: Self)
        ensures
            cache_capacity(&r) == cache_capacity(self),
    {
        DeliveryCache { inner: self.inner.clone() }
    }
}

/// What the store behind the handle held when this value of the handle was
/// last observed: each stored key, mapped to its entry.  Every operation
/// takes `&mut self` and re-samples this; nothing relates the contents seen
/// by one call to those seen by the next.
pub uninterp spec fn cache_contents(c: &DeliveryCache) -> Map<Seq<char>, CachedFileModel>;

/// The entry-count bound the cache was built with; fixed for the life of
/// the store and shared by all handles onto it.
pub uninterp spec fn cache_capacity(c: &DeliveryCache) -> u64;

impl DeliveryCache {
    /// Relies on moka's `CacheBuilder`: `max_capacity` sets the entry-count
    /// bound and `time_to_live` expires entries that long after insertion
    /// (`build` panics on lifetimes beyond a thousand years, ruled out
    /// here).
    #[verifier::external_body]
    pub fn new(capacity: u64, ttl_secs: u64) -> (c: DeliveryCache)
        requires
            ttl_secs <= 31536000000,
        ensures
            cache_capacity(&c) == capacity,
    {
        DeliveryCache {
            inner: moka::sync::Cache::builder()
                .max_capacity(capacity)
                .time_to_live(std::time::Duration::from_secs(ttl_secs))
                .build(),
        }
    }

    /// Relies on moka's `Cache::get`: a hit returns a clone of the value
    /// the store held for the key at this observation.  Nothing more is
    /// stated: a miss may occur for a key the store holds (expiry in
    /// flight), and the contents may differ from any earlier observation.
    #[verifier::external_body]
    fn raw_get(&mut self, key: &String) -> (r: Option<CachedFile>)
        ensures
            cache_capacity(final(self)) == cache_capacity(old(self)),
            r is Some ==> cache_contents(final(self)).contains_key(key@),
            r is Some ==> (r->0).model() == cache_contents(final(self))[key@],
    {
        self.inner.get(key)
    }

    /// Relies on moka's `Cache::insert` and `run_pending_tasks`: the value
    /// is stored under the key (subject to the admission policy), any prior
    /// entry for it is superseded, and once maintenance has run the store
    /// holds at most its capacity — moka's own test suite asserts that
    /// bound.
    #[verifier::external_body]
    fn raw_insert(&mut self, key: String, value: CachedFile)
        ensures
            cache_capacity(final(self)) == cache_capacity(old(self)),
            cache_contents(final(self)).contains_key(key@)
                ==> cache_contents(final(self))[key@] == value.model(),
            cache_contents(final(self)).dom().finite(),
            cache_contents(final(self)).len() <= cache_capacity(old(self)),
    {
        self.inner.insert(key, value);
        self.inner.run_pending_tasks();
    }

    /// Relies on moka's `run_pending_tasks` and `entry_count`: after
    /// maintenance the count is exact and within the capacity bound.
    #[verifier::external_body]
    pub fn settled_len(&mut self) -> (n: u64)
        ensures
            cache_capacity(final(self)) == cache_capacity(old(self)),
            cache_contents(final(self)).dom().finite(),
            cache_contents(final(self)).len() <= cache_capacity(old(self)),
            n == cache_contents(final(self)).len(),
    {
        self.inner.run_pending_tasks();
        self.inner.entry_count()
    }

    /// Returns the cached contents stored for `path`, but only if their
    /// stored modification time equals `current_mtime`; a stale entry is
    /// treated exactly like a miss, and the caller must then read the file
    /// afresh and re-insert it.  The clauses speak of the contents this
    /// call observed.
    pub fn lookup(&mut self, path: &String, current_mtime: u64) -> (r: Option<Vec<u8>>)
        ensures
            cache_capacity(final(self)) == cache_capacity(old(self)),
            r is Some ==> cache_contents(final(self)).contains_key(path@)
                && cache_contents(final(self))[path@].modified == current_mtime
                && (r->0)@ == cache_contents(final(self))[path@].data,
            !(cache_contents(final(self)).contains_key(path@)
                && cache_contents(final(self))[path@].modified == current_mtime) ==> r is None,
    {
        validate_entry(self.raw_get(path), current_mtime)
    }

    /// Stores the freshly read contents for `path`, superseding any prior
    /// entry for it; at this observation the store holds at most its
    /// capacity, and whatever it holds for `path` is exactly the new entry.
    pub fn insert(&mut self, path: String, data: Vec<u8>, modified: u64)
        ensures
            cache_capacity(final(self)) == cache_capacity(old(self)),
            cache_contents(final(self)).contains_key(path@)
                ==> cache_contents(final(self))[path@] == (CachedFileModel {
                data: data@,
                modified,
            }),
            cache_contents(final(self)).dom().finite(),
            cache_contents(final(self)).len() <= cache_capacity(old(self)),
    {
        self.raw_insert(path, CachedFile { data, modified });
    }
}

/// The validation half of a lookup, on whatever the store handed back: the
/// entry's contents are served exactly when its stored modification time
/// equals the file's current one; anything else is a miss.
pub fn validate_entry(entry: Option<CachedFile>, current_mtime: u64) -> (r: Option<Vec<u8>>)
    ensures
        entry is Some && (entry->0).modified == current_mtime ==> r is Some && (r->0)@ == (
        entry->0).data@,
        !(entry is Some && (entry->0).modified == current_mtime) ==> r is None,
{
    match entry {
        Some(e) => {
            if e.modified == current_mtime {
                Some(e.data)
            } else {
                None
            }
        },
        None => None,
    }
}

/// Law (cache correctness, hit direction): whenever every entry stored for
/// a path at the file's current modification time holds exactly the file's
/// bytes, any answer the lookup contract admits serves exactly those bytes;
/// a miss makes the caller read the same bytes from disk, so both delivery
/// paths are byte-identical while the file is unchanged.
pub proof fn lemma_hit_serves_current_bytes(
    contents: Map<Seq<char>, CachedFileModel>,
    path: Seq<char>,
    current_mtime: u64,
    file_bytes: Seq<u8>,
    answer: Option<Seq<u8>>,
)
    requires
        contents.contains_key(path) && contents[path].modified == current_mtime
            ==> contents[path].data == file_bytes,
        answer is Some ==> contents.contains_key(path)
            && contents[path].modified == current_mtime && answer->0 == contents[path].data,
    ensures
        answer is Some ==> answer->0 == file_bytes,
{
}

/// Law (stale entries are never served): an entry stored at a different
/// modification time than the file's current one is treated as a miss.
pub proof fn lemma_stale_entry_is_a_miss(
    contents: Map<Seq<char>, CachedFileModel>,
    path: Seq<char>,
    current_mtime: u64,
    answer: Option<Seq<u8>>,
)
    requires
        contents.contains_key(path) ==> contents[path].modified != current_mtime,
        answer is Some ==> contents.contains_key(path)
            && contents[path].modified == current_mtime && answer->0 == contents[path].data,
    ensures
        answer is None,
{
}

} // verus!
