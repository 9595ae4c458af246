use crate::cache::LoaderCache;
use crate::key::{KeyView, LoaderHandle, LoaderKey};
use std::marker::PhantomData;
use vstd::prelude::*;
use vstd::rwlock::RwLock;

verus! {

/// Whether `construct` may build `loader` for a key that reads `k`.
pub open spec fn can_construct<L, E, F: Fn(&LoaderKey) -> Result<L, E>>(
    construct: F,
    k: KeyView,
    loader: L,
) -> bool {
    exists|key: LoaderKey| key@ == k && #[trigger] construct.ensures((&key,), Ok::<L, E>(loader))
}

/// A well-formed cache each of whose loaders `construct` may have built for its key.
pub open spec fn built_by<L, E, F: Fn(&LoaderKey) -> Result<L, E>>(
    c: LoaderCache<L>,
    construct: F,
) -> bool {
    &&& c.wf()
    &&& forall|k: KeyView| #[trigger]
        c@.contains_key(k) ==> can_construct::<L, E, F>(construct, k, c@[k].loader())
}

/// A loader cache that many tasks may query at once.
///
/// A lookup holds the lock shared. On a miss the loader is built with no lock
/// held, and stored under the exclusive lock. Two first requests for one key
/// that race may therefore both construct; the later store replaces the
/// earlier one, and both callers still get a loader built for their key.
#[verifier::reject_recursive_types(L)]
#[verifier::reject_recursive_types(E)]
#[verifier::reject_recursive_types(F)]
pub struct SharedLoaderCache<L, E, F: Fn(&LoaderKey) -> Result<L, E>> {
    lock: RwLock<LoaderCache<L>, spec_fn(LoaderCache<L>) -> bool>,
    construct: F,
    error: PhantomData<E>,
}

impl<L, E, F: Fn(&LoaderKey) -> Result<L, E>> SharedLoaderCache<L, E, F> {
    /// The constructor that builds every loader of this cache.
    pub closed spec fn constructor(&self) -> F {
        self.construct
    }

    pub closed spec fn wf(&self) -> bool {
        &&& forall|c: LoaderCache<L>| #[trigger]
            self.lock.inv(c) == built_by::<L, E, F>(c, self.construct)
        &&& forall|k: &LoaderKey| #[trigger] self.construct.requires((k,))
    }

    /// An empty cache whose loaders `construct` builds.
    pub fn new(construct: F) -> (r: Self)
        requires
            forall|k: &LoaderKey| #[trigger] construct.requires((k,)),
        ensures
            r.wf(),
            r.constructor() == construct,
    {
        let ghost pred = |c: LoaderCache<L>| built_by::<L, E, F>(c, construct);
        let lock = RwLock::new(LoaderCache::new(), Ghost(pred));
        SharedLoaderCache { lock, construct, error: PhantomData }
    }

    /// The stored loader for `key`, if any. Whatever calls came before, and
    /// whichever of two racing constructions was stored last, it is a loader
    /// that the constructor may build for `key`.
    pub fn lookup(&self, key: &LoaderKey) -> (r: Option<LoaderHandle<L>>)
        requires
            self.wf(),
        ensures
            r matches Some(h) ==> can_construct::<L, E, F>(self.constructor(), key@, h.loader()),
    {
        let read = self.lock.acquire_read();
        let found = read.borrow().lookup(key);
        read.release_read();
        found
    }

    /// The loader for `key`: a stored one, or one built now and then stored.
    /// Whichever it is, and however many tasks ask at once, it is a loader that
    /// the constructor may build for `key`. A failed construction stores nothing
    /// and comes back as the error.
    ///
    /// Other tasks may change the cache between any two steps of a call, so
    /// this contract cannot say which calls are hits. The step-by-step
    /// behaviour (a hit hands back the stored handle and changes nothing; a miss
    /// stores what was built) is the contract of `LoaderCache::get_or_construct`,
    /// and this method performs the same steps, with the lock held shared for
    /// the lookup and exclusively for the store. No call holds both locks.
    pub fn get_or_construct(&self, key: LoaderKey) -> (r: Result<LoaderHandle<L>, E>)
        requires
            self.wf(),
        ensures
            r matches Ok(h) ==> can_construct::<L, E, F>(self.constructor(), key@, h.loader()),
            r matches Err(e) ==> self.constructor().ensures((&key,), Err::<L, E>(e)),
    {
        if let Some(h) = self.lookup(&key) {
            return Ok(h);
        }
        let built = (self.construct)(&key);
        match built {
            Ok(loader) => {
                let h = LoaderHandle::new(loader);
                assert(can_construct::<L, E, F>(self.construct, key@, h.loader()));
                let (mut c, write) = self.lock.acquire_write();
                let ghost before = c@;
                c.insert(key, h.share());
                assert(built_by::<L, E, F>(c, self.construct)) by {
                    assert forall|k: KeyView| #[trigger] c@.contains_key(k) implies can_construct::<
                        L,
                        E,
                        F,
                    >(self.construct, k, c@[k].loader()) by {
                        if k != key@ {
                            assert(before.contains_key(k));
                        }
                    }
                }
                write.release_write(c);
                Ok(h)
            },
            Err(e) => Err(e),
        }
    }
}

} // verus!
