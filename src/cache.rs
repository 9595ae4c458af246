use crate::key::{KeyView, LoaderHandle, LoaderKey};
use vstd::prelude::*;

verus! {

/// The cache and the handle handed out after one successful request for `k`,
/// where `fresh` is the handle a construction would give: a stored key is
/// answered from the cache, which stays as it was; otherwise `fresh` is stored
/// and handed out.
pub open spec fn request_outcome<L>(
    m: Map<KeyView, LoaderHandle<L>>,
    k: KeyView,
    fresh: LoaderHandle<L>,
) -> (Map<KeyView, LoaderHandle<L>>, LoaderHandle<L>) {
    if m.contains_key(k) {
        (m, m[k])
    } else {
        (m.insert(k, fresh), fresh)
    }
}

/// The cache after the successful requests `ks[0]`, `ks[1]`, ... in turn,
/// where `fs[i]` is what a construction for `ks[i]` would give.
pub open spec fn after_requests<L>(
    m: Map<KeyView, LoaderHandle<L>>,
    ks: Seq<KeyView>,
    fs: Seq<LoaderHandle<L>>,
) -> Map<KeyView, LoaderHandle<L>>
    decreases ks.len(),
{
    if ks.len() == 0 || fs.len() == 0 {
        m
    } else {
        after_requests(request_outcome(m, ks[0], fs[0]).0, ks.drop_first(), fs.drop_first())
    }
}

/// A get-or-construct store from loader keys to constructed loaders.
///
/// Entries are added once per distinct key and never removed. The entries are
/// kept in a vector with pairwise distinct keys; `model` is the map they stand for.
/// A vector is used because the key is a pair of strings, and a standard map keyed
/// by strings comes with no specification that a lookup could be proved against.
pub struct LoaderCache<L> {
    entries: Vec<(LoaderKey, LoaderHandle<L>)>,
    model: Ghost<Map<KeyView, LoaderHandle<L>>>,
}

impl<L> View for LoaderCache<L> {
    type V = Map<KeyView, LoaderHandle<L>>;

    closed spec fn view(&self) -> Map<KeyView, LoaderHandle<L>> {
        self.model@
    }
}

impl<L> LoaderCache<L> {
    /// Keys are pairwise distinct, and the entries hold exactly the model.
    pub closed spec fn wf(&self) -> bool {
        &&& self.model@.dom().finite()
        &&& self.model@.len() == self.entries@.len()
        &&& forall|i: int, j: int|
            0 <= i < j < self.entries@.len() ==> self.entries@[i].0@ != self.entries@[j].0@
        &&& forall|i: int|
            0 <= i < self.entries@.len() ==> #[trigger] self.model@.contains_key(
                self.entries@[i].0@,
            ) && self.model@[self.entries@[i].0@] == self.entries@[i].1
        &&& forall|k: KeyView|
            #[trigger] self.model@.contains_key(k) ==> exists|i: int|
                0 <= i < self.entries@.len() && self.entries@[i].0@ == k
    }

    pub fn new() -> (r: LoaderCache<L>)
        ensures
            r.wf(),
            r@ == Map::<KeyView, LoaderHandle<L>>::empty(),
    {
        LoaderCache { entries: Vec::new(), model: Ghost(Map::empty()) }
    }

    /// Number of distinct keys held.
    pub fn len(&self) -> (r: usize)
        requires
            self.wf(),
        ensures
            r == self@.len(),
    {
        self.entries.len()
    }

    /// Position of the entry for `key`, if there is one.
    fn find(&self, key: &LoaderKey) -> (r: Option<usize>)
        requires
            self.wf(),
        ensures
            match r {
                Some(i) => i < self.entries@.len() && self.entries@[i as int].0@ == key@,
                None => !self@.contains_key(key@),
            },
    {
        let mut i: usize = 0;
        while i < self.entries.len()
            invariant
                self.wf(),
                i <= self.entries@.len(),
                forall|j: int| 0 <= j < i ==> self.entries@[j].0@ != key@,
            decreases self.entries@.len() - i,
        {
            if self.entries[i].0.same_as(key) {
                return Some(i);
            }
            i += 1;
        }
        None
    }

    /// Whether a loader is stored for `key`.
    pub fn contains(&self, key: &LoaderKey) -> (r: bool)
        requires
            self.wf(),
        ensures
            r == self@.contains_key(key@),
    {
        self.find(key).is_some()
    }

    /// The stored handle for `key`, shared; `None` when the key was never stored.
    pub fn lookup(&self, key: &LoaderKey) -> (r: Option<LoaderHandle<L>>)
        requires
            self.wf(),
        ensures
            match r {
                Some(h) => self@.contains_key(key@) && h == self@[key@],
                None => !self@.contains_key(key@),
            },
    {
        match self.find(key) {
            Some(i) => {
                assert(self.model@.contains_key(self.entries@[i as int].0@));
                Some(self.entries[i].1.share())
            },
            None => None,
        }
    }

    /// Stores `handle` under `key`. A handle already stored under the same key
    /// is replaced: this is what happens when two first requests for one key
    /// raced and both constructed a loader.
    pub fn insert(&mut self, key: LoaderKey, handle: LoaderHandle<L>)
        requires
            old(self).wf(),
        ensures
            final(self).wf(),
            final(self)@ == old(self)@.insert(key@, handle),
    {
        let ghost k = key@;
        let ghost h = handle;
        let ghost mut at: int = 0;
        match self.find(&key) {
            Some(i) => {
                self.entries.set(i, (key, handle));
                proof {
                    at = i as int;
                }
            },
            None => {
                self.entries.push((key, handle));
                proof {
                    at = self.entries@.len() - 1;
                }
            },
        }
        self.model = Ghost(self.model@.insert(k, h));
        assert forall|kk: KeyView| #[trigger] self.model@.contains_key(kk) implies exists|j: int|
            0 <= j < self.entries@.len() && self.entries@[j].0@ == kk by {
            if kk != k {
                let j = choose|j: int|
                    0 <= j < old(self).entries@.len() && old(self).entries@[j].0@ == kk;
                assert(self.entries@[j].0@ == kk);
            } else {
                assert(self.entries@[at].0@ == kk);
            }
        }
    }

    /// The loader for `key`: the stored one when there is one, with no
    /// construction; otherwise the one `construct` builds, which is then stored.
    /// A failed construction stores nothing and is handed back, so a later
    /// request for the key constructs again.
    pub fn get_or_construct<E, F: Fn(&LoaderKey) -> Result<L, E>>(
        &mut self,
        key: LoaderKey,
        construct: F,
    ) -> (r: Result<LoaderHandle<L>, E>)
        requires
            old(self).wf(),
            construct.requires((&key,)),
        ensures
            final(self).wf(),
            old(self)@.contains_key(key@) ==> r == Ok::<LoaderHandle<L>, E>(old(self)@[key@])
                && final(self)@ == old(self)@,
            !old(self)@.contains_key(key@) ==> match r {
                Ok(h) => construct.ensures((&key,), Ok::<L, E>(h.loader()))
                    && final(self)@ == old(self)@.insert(key@, h),
                Err(e) => construct.ensures((&key,), Err::<L, E>(e)) && final(self)@ == old(
                    self,
                )@,
            },
            r matches Ok(h) ==> (final(self)@, h) == request_outcome(old(self)@, key@, h),
    {
        match self.lookup(&key) {
            Some(h) => Ok(h),
            None => {
                match construct(&key) {
                    Ok(loader) => {
                        let h = LoaderHandle::new(loader);
                        self.insert(key, h.share());
                        Ok(h)
                    },
                    Err(e) => Err(e),
                }
            },
        }
    }
}

/// A second request for a key returns the handle of the first and changes
/// nothing, whatever a construction would have given: no construction happens.
pub proof fn lemma_repeat_request_hits<L>(
    m: Map<KeyView, LoaderHandle<L>>,
    k: KeyView,
    first: LoaderHandle<L>,
    second: LoaderHandle<L>,
)
    ensures
        ({
            let (m1, h1) = request_outcome(m, k, first);
            let (m2, h2) = request_outcome(m1, k, second);
            &&& m1.contains_key(k)
            &&& m2 == m1
            &&& h2 == h1
        }),
{
}

/// The first request for a fresh key is a miss that stores the constructed
/// handle; after it, every later request for that key, whatever other requests
/// come between, is a hit that returns that same handle.
pub proof fn lemma_hit_after_first_miss<L>(
    m: Map<KeyView, LoaderHandle<L>>,
    k: KeyView,
    fresh: LoaderHandle<L>,
    ks: Seq<KeyView>,
    fs: Seq<LoaderHandle<L>>,
    again: LoaderHandle<L>,
)
    requires
        !m.contains_key(k),
    ensures
        ({
            let (m1, h1) = request_outcome(m, k, fresh);
            let later = after_requests(m1, ks, fs);
            &&& h1 == fresh
            &&& m1 == m.insert(k, fresh)
            &&& later.contains_key(k)
            &&& request_outcome(later, k, again) == (later, fresh)
        }),
{
    lemma_requests_keep_entry(m.insert(k, fresh), k, ks, fs);
}

/// Requests never remove or replace a stored entry.
pub proof fn lemma_requests_keep_entry<L>(
    m: Map<KeyView, LoaderHandle<L>>,
    k: KeyView,
    ks: Seq<KeyView>,
    fs: Seq<LoaderHandle<L>>,
)
    requires
        m.contains_key(k),
    ensures
        after_requests(m, ks, fs).contains_key(k),
        after_requests(m, ks, fs)[k] == m[k],
    decreases ks.len(),
{
    if ks.len() > 0 && fs.len() > 0 {
        lemma_requests_keep_entry(
            request_outcome(m, ks[0], fs[0]).0,
            k,
            ks.drop_first(),
            fs.drop_first(),
        );
    }
}

/// Two fresh keys with the same name and different configurations get entries
/// of their own: each request constructs, and both handles stay stored.
pub proof fn lemma_configurations_kept_apart<L>(
    m: Map<KeyView, LoaderHandle<L>>,
    k1: KeyView,
    k2: KeyView,
    f1: LoaderHandle<L>,
    f2: LoaderHandle<L>,
)
    requires
        k1.0 == k2.0,
        k1.1 != k2.1,
        !m.contains_key(k1),
        !m.contains_key(k2),
    ensures
        ({
            let (m1, h1) = request_outcome(m, k1, f1);
            let (m2, h2) = request_outcome(m1, k2, f2);
            &&& h1 == f1
            &&& h2 == f2
            &&& m2 == m.insert(k1, f1).insert(k2, f2)
            &&& m2[k1] == f1
            &&& m2[k2] == f2
        }),
{
}

} // verus!
