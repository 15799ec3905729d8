//! TTL-expiring key->value cache tiers.
//!
//! Each tier maps string keys to values stamped with their insertion time.
//! Time is an explicit parameter, in seconds of a monotonic clock chosen by
//! the caller: an entry inserted at `t` is served for reads at times
//! strictly before `t + ttl` and never at or after. Expiry is checked on
//! read; no background sweep is needed for correctness.

use vstd::prelude::*;
use vstd::hash_map::StringHashMap;

use crate::model::{FileInfo, FileInfoV, Thumbnails, ThumbnailsV};

verus! {

/// An entry inserted at `inserted_at` is still fresh at `now` for a tier
/// with time-to-live `ttl`.
pub open spec fn fresh_at(inserted_at: u64, ttl: u64, now: u64) -> bool {
    (now as int) < inserted_at + ttl
}

/// What a read of key `k` at time `now` returns from entry map `m`.
pub open spec fn spec_lookup<T>(
    m: Map<Seq<char>, (T, u64)>,
    ttl: u64,
    k: Seq<char>,
    now: u64,
) -> Option<T> {
    if m.contains_key(k) && fresh_at(m[k].1, ttl, now) {
        Some(m[k].0)
    } else {
        None
    }
}

/// One TTL cache tier. Its view is the entry map over the values'
/// mathematical contents: key -> (value contents, insertion time).
#[verifier::reject_recursive_types(V)]
pub struct TtlCache<V> {
    ttl: u64,
    entries: StringHashMap<(V, u64)>,
}

impl<V: DeepView> View for TtlCache<V> {
    type V = Map<Seq<char>, (<V as DeepView>::V, u64)>;

    closed spec fn view(&self) -> Map<Seq<char>, (<V as DeepView>::V, u64)> {
        self.entries@.map_values(|p: (V, u64)| (p.0.deep_view(), p.1))
    }
}

impl<V: DeepView> TtlCache<V> {
    /// The tier's fixed time-to-live, in seconds.
    pub closed spec fn spec_ttl(&self) -> u64 {
        self.ttl
    }

    /// An empty tier whose entries live for `ttl` seconds.
    pub fn new(ttl: u64) -> (r: Self)
        ensures
            r@ == Map::<Seq<char>, (<V as DeepView>::V, u64)>::empty(),
            r.spec_ttl() == ttl,
    {
        let r = TtlCache { ttl, entries: StringHashMap::new() };
        proof {
            assert(r@ =~= Map::<Seq<char>, (<V as DeepView>::V, u64)>::empty());
        }
        r
    }

    /// Inserts or overwrites the entry for `k`, resetting its age to zero.
    pub fn put(&mut self, k: String, v: V, now: u64)
        ensures
            final(self)@ == old(self)@.insert(k@, (v.deep_view(), now)),
            final(self).spec_ttl() == old(self).spec_ttl(),
    {
        let ghost prior = self@;
        self.entries.insert(k, (v, now));
        proof {
            assert(self@ =~= prior.insert(k@, ((old(self).entries@.insert(
                k@,
                (v, now),
            ))[k@].0.deep_view(), now)));
        }
    }

    /// Returns the value stored under `k` if one exists and is still
    /// fresh at `now`; nothing otherwise.
    pub fn get<'a>(&'a self, k: &str, now: u64) -> (r: Option<&'a V>)
        ensures
            match r {
                Some(v) => spec_lookup(self@, self.spec_ttl(), k@, now) == Some(v.deep_view()),
                None => spec_lookup(self@, self.spec_ttl(), k@, now) is None,
            },
    {
        match self.entries.get(k) {
            Some(p) => {
                let inserted_at: u64 = p.1;
                let still_fresh: bool = if inserted_at > now {
                    true
                } else {
                    now - inserted_at < self.ttl
                };
                if still_fresh {
                    Some(&p.0)
                } else {
                    None
                }
            },
            None => None,
        }
    }
}

/// Law: an entry put at time `t` is read back exactly while `now < t + ttl`
/// and is gone from reads at `now >= t + ttl`; entries under other keys are
/// untouched by the put.
pub proof fn lemma_cache_ttl<T>(
    m: Map<Seq<char>, (T, u64)>,
    ttl: u64,
    k: Seq<char>,
    v: T,
    t: u64,
    now: u64,
    k2: Seq<char>,
)
    ensures
        spec_lookup(m.insert(k, (v, t)), ttl, k, now) == if (now as int) < t + ttl {
            Some(v)
        } else {
            None::<T>
        },
        k2 != k ==> spec_lookup(m.insert(k, (v, t)), ttl, k2, now) == spec_lookup(
            m,
            ttl,
            k2,
            now,
        ),
{
}

/// The four cache tiers feeding request handlers.
pub struct Caches {
    /// item id -> signed download URL
    pub download_url_cache: TtlCache<String>,
    /// folder path -> ordered file list
    pub list_cache: TtlCache<Vec<FileInfo>>,
    /// item id -> thumbnail URL set
    pub thumb_cache: TtlCache<Thumbnails>,
    /// item id -> normalized file record
    pub file_cache: TtlCache<FileInfo>,
}

/// The contents of all four tiers at once.
pub ghost struct CachesV {
    pub download_url: Map<Seq<char>, (Seq<char>, u64)>,
    pub list: Map<Seq<char>, (Seq<FileInfoV>, u64)>,
    pub thumb: Map<Seq<char>, (ThumbnailsV, u64)>,
    pub file: Map<Seq<char>, (FileInfoV, u64)>,
}

impl View for Caches {
    type V = CachesV;

    open spec fn view(&self) -> CachesV {
        CachesV {
            download_url: self.download_url_cache@,
            list: self.list_cache@,
            thumb: self.thumb_cache@,
            file: self.file_cache@,
        }
    }
}

impl Caches {
    /// Empty tiers, each with its own time-to-live in seconds.
    pub fn with_ttls(download_ttl: u64, list_ttl: u64, thumb_ttl: u64, file_ttl: u64) -> (r: Self)
        ensures
            r@.download_url == Map::<Seq<char>, (Seq<char>, u64)>::empty(),
            r@.list == Map::<Seq<char>, (Seq<FileInfoV>, u64)>::empty(),
            r@.thumb == Map::<Seq<char>, (ThumbnailsV, u64)>::empty(),
            r@.file == Map::<Seq<char>, (FileInfoV, u64)>::empty(),
            r.download_url_cache.spec_ttl() == download_ttl,
            r.list_cache.spec_ttl() == list_ttl,
            r.thumb_cache.spec_ttl() == thumb_ttl,
            r.file_cache.spec_ttl() == file_ttl,
    {
        Caches {
            download_url_cache: TtlCache::new(download_ttl),
            list_cache: TtlCache::new(list_ttl),
            thumb_cache: TtlCache::new(thumb_ttl),
            file_cache: TtlCache::new(file_ttl),
        }
    }

    /// Empty tiers sharing one time-to-live in seconds.
    pub fn new(ttl: u64) -> (r: Self)
        ensures
            r@.download_url == Map::<Seq<char>, (Seq<char>, u64)>::empty(),
            r@.list == Map::<Seq<char>, (Seq<FileInfoV>, u64)>::empty(),
            r@.thumb == Map::<Seq<char>, (ThumbnailsV, u64)>::empty(),
            r@.file == Map::<Seq<char>, (FileInfoV, u64)>::empty(),
            r.download_url_cache.spec_ttl() == ttl,
            r.list_cache.spec_ttl() == ttl,
            r.thumb_cache.spec_ttl() == ttl,
            r.file_cache.spec_ttl() == ttl,
    {
        Self::with_ttls(ttl, ttl, ttl, ttl)
    }
}

} // verus!
