//! A single-computation cache of the resolved version list.
//!
//! One cache instance holds the list for one identifier (its key is the
//! cache location fixed at construction). Within one process, the first
//! successful computation is kept and every later request returns it;
//! a failed computation leaves the cache empty (no poisoned entries).
//! Reading and writing the persisted copy is the external cache
//! collaborator's concern; it can seed a freshly built cache through
//! [`VersionListCache::seed_persisted`] and read the entry to persist
//! through [`VersionListCache::cached`].

use vstd::prelude::*;
use crate::errors::Error;

verus! {

/// The persisted, single-computation cache of a resolved version list.
#[derive(Debug)]
pub struct VersionListCache {
    /// Where the external collaborator persists this list.
    pub cache_location: String,
    /// The computed list, if any computation has succeeded.
    pub entry: Option<Vec<String>>,
}

/// Relates the cache contents before a `get_or_compute` call, the contents
/// after it, and the returned list (`None` abstracts a failure).
pub open spec fn get_or_compute_step(
    pre: Option<Seq<Seq<char>>>,
    post: Option<Seq<Seq<char>>>,
    result: Option<Seq<Seq<char>>>,
) -> bool {
    &&& (pre is Some ==> result == pre && post == pre)
    &&& (pre is None ==> post == result)
}

impl VersionListCache {
    /// The abstract contents of the cache.
    pub open spec fn contents(&self) -> Option<Seq<Seq<char>>> {
        match self.entry {
            Some(v) => Some(v.deep_view()),
            None => None,
        }
    }

    /// An empty cache that persists under `cache_location`.
    pub fn new(cache_location: String) -> (r: Self)
        ensures
            r.cache_location@ == cache_location@,
            r.contents() is None,
    {
        VersionListCache { cache_location, entry: None }
    }

    /// Seeds the cache with a list read from persistent storage; a value
    /// already present is kept.
    pub fn seed_persisted(&mut self, persisted: Vec<String>)
        ensures
            final(self).cache_location@ == old(self).cache_location@,
            old(self).contents() is Some ==> final(self).contents() == old(self).contents(),
            old(self).contents() is None ==> final(self).contents() == Some(
                persisted.deep_view(),
            ),
    {
        if self.entry.is_none() {
            self.entry = Some(persisted);
        }
    }

    /// The cached list, if any.
    pub fn cached(&self) -> (r: &Option<Vec<String>>)
        ensures
            *r == self.entry,
    {
        &self.entry
    }

    /// Returns the cached list if one exists; otherwise invokes `compute`,
    /// keeps its successful result, and returns it. A failure of `compute`
    /// propagates and nothing is kept.
    pub fn get_or_compute<F: FnOnce() -> Result<Vec<String>, Error>>(&mut self, compute: F) -> (r:
        Result<Vec<String>, Error>)
        requires
            call_requires(compute, ()),
        ensures
            final(self).cache_location@ == old(self).cache_location@,
            get_or_compute_step(
                old(self).contents(),
                final(self).contents(),
                match r {
                    Ok(v) => Some(v.deep_view()),
                    Err(_) => None,
                },
            ),
            old(self).contents() matches Some(s) ==> r matches Ok(v) && v.deep_view() == s,
            old(self).contents() is None ==> call_ensures(compute, (), r),
            r is Err ==> final(self).contents() is None && old(self).contents() is None,
    {
        match &self.entry {
            Some(v) => {
                let c = v.clone();
                proof {
                    vstd::std_specs::vec::vec_clone_deep_view_proof(*v, c);
                }
                Ok(c)
            },
            None => {
                match compute() {
                    Ok(v) => {
                        let c = v.clone();
                        proof {
                            vstd::std_specs::vec::vec_clone_deep_view_proof(v, c);
                        }
                        self.entry = Some(c);
                        Ok(v)
                    },
                    Err(e) => Err(e),
                }
            },
        }
    }
}

/// Law: two consecutive `get_or_compute` calls on the same cache return
/// identical lists once the first has succeeded, whatever the second call's
/// compute function would do; the cache is left unchanged by the second call.
pub proof fn lemma_get_or_compute_idempotent(
    pre: Option<Seq<Seq<char>>>,
    mid: Option<Seq<Seq<char>>>,
    post: Option<Seq<Seq<char>>>,
    r1: Option<Seq<Seq<char>>>,
    r2: Option<Seq<Seq<char>>>,
)
    requires
        get_or_compute_step(pre, mid, r1),
        get_or_compute_step(mid, post, r2),
        r1 is Some,
    ensures
        r2 == r1,
        post == mid,
{
}

} // verus!
