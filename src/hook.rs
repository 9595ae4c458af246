use crate::cache::LoaderCache;
use crate::key::{LoaderHandle, LoaderKey};
use crate::shared::{can_construct, SharedLoaderCache};
use vstd::prelude::*;
use vstd::utf8::encode_utf8;

verus! {

/// Whether the bytes of `name` start with the bytes of `namespace`.
pub open spec fn in_namespace(namespace: Seq<char>, name: Seq<char>) -> bool {
    let ns = encode_utf8(namespace);
    let nm = encode_utf8(name);
    ns.len() <= nm.len() && nm.subrange(0, ns.len() as int) == ns
}

/// The key a request is cached under: its name, and its configuration or the
/// empty blob when it has none.
pub open spec fn request_key(name: Seq<char>, options: Option<&str>) -> (Seq<char>, Seq<char>) {
    match options {
        Some(o) => (name, o@),
        None => (name, Seq::empty()),
    }
}

/// The hook through which loader requests are resolved: it answers for the
/// names under its namespace, through a cache, and declines all others so that
/// other resolvers may try them.
pub struct LoaderResolver {
    pub namespace: String,
}

impl LoaderResolver {
    pub fn new(namespace: &str) -> (r: LoaderResolver)
        ensures
            r.namespace@ == namespace@,
    {
        LoaderResolver { namespace: namespace.to_owned() }
    }

    /// Whether a loader name lies under this resolver's namespace.
    pub fn owns(&self, name: &str) -> (r: bool)
        ensures
            r == in_namespace(self.namespace@, name@),
    {
        let ns = self.namespace.as_str().as_bytes();
        let nm = name.as_bytes();
        if ns.len() > nm.len() {
            return false;
        }
        let mut i: usize = 0;
        while i < ns.len()
            invariant
                ns@ == encode_utf8(self.namespace@),
                nm@ == encode_utf8(name@),
                ns@.len() <= nm@.len(),
                i <= ns@.len(),
                forall|j: int| 0 <= j < i ==> nm@[j] == ns@[j],
            decreases ns@.len() - i,
        {
            if ns[i] != nm[i] {
                assert(nm@.subrange(0, ns@.len() as int)[i as int] != ns@[i as int]);
                return false;
            }
            i += 1;
        }
        assert(nm@.subrange(0, ns@.len() as int) =~= ns@);
        true
    }

    /// Resolves a request through `cache`. A name outside the namespace gives
    /// `Ok(None)` and leaves the cache untouched; any other name gives the
    /// cache's loader for the request's key, or the construction error.
    pub fn resolve_loader<L, E, F: Fn(&LoaderKey) -> Result<L, E>>(
        &self,
        cache: &mut LoaderCache<L>,
        name: &str,
        options: Option<&str>,
        construct: F,
    ) -> (r: Result<Option<LoaderHandle<L>>, E>)
        requires
            old(cache).wf(),
            forall|k: &LoaderKey| #[trigger] construct.requires((k,)),
        ensures
            final(cache).wf(),
            !in_namespace(self.namespace@, name@) ==> (r matches Ok(None)) && final(cache)@ == old(
                cache,
            )@,
            in_namespace(self.namespace@, name@) ==> !(r matches Ok(None)),
            in_namespace(self.namespace@, name@) && old(cache)@.contains_key(
                request_key(name@, options),
            ) ==> r == Ok::<Option<LoaderHandle<L>>, E>(
                Some(old(cache)@[request_key(name@, options)]),
            ) && final(cache)@ == old(cache)@,
            r matches Ok(Some(h)) ==> in_namespace(self.namespace@, name@) && (!old(
                cache,
            )@.contains_key(request_key(name@, options)) ==> final(cache)@ == old(cache)@.insert(
                request_key(name@, options),
                h,
            ) && exists|key: LoaderKey|
                key@ == request_key(name@, options) && #[trigger] construct.ensures(
                    (&key,),
                    Ok::<L, E>(h.loader()),
                )),
            r is Err ==> in_namespace(self.namespace@, name@) && !old(cache)@.contains_key(
                request_key(name@, options),
            ) && final(cache)@ == old(cache)@,
            r is Err ==> exists|key: LoaderKey|
                key@ == request_key(name@, options) && #[trigger] construct.ensures(
                    (&key,),
                    Err::<L, E>(r->Err_0),
                ),
    {
        if !self.owns(name) {
            return Ok(None);
        }
        let key = request_key_of(name, options);
        let ghost asked = key;
        match cache.get_or_construct(key, construct) {
            Ok(h) => {
                assert(!old(cache)@.contains_key(asked@) ==> exists|key: LoaderKey|
                    key@ == request_key(name@, options) && #[trigger] construct.ensures(
                        (&key,),
                        Ok::<L, E>(h.loader()),
                    )) by {
                    if !old(cache)@.contains_key(asked@) {
                        assert(construct.ensures((&asked,), Ok::<L, E>(h.loader())));
                    }
                }
                Ok(Some(h))
            },
            Err(e) => {
                let out: Result<Option<LoaderHandle<L>>, E> = Err(e);
                assert(construct.ensures((&asked,), Err::<L, E>(out->Err_0)));
                out
            },
        }
    }

    /// Resolves a request through a cache shared between tasks. A name outside
    /// the namespace gives `Ok(None)` with no construction; any other name gives
    /// a loader that the cache's constructor may build for the request's key,
    /// or the construction error.
    pub fn resolve_loader_shared<L, E, F: Fn(&LoaderKey) -> Result<L, E>>(
        &self,
        cache: &SharedLoaderCache<L, E, F>,
        name: &str,
        options: Option<&str>,
    ) -> (r: Result<Option<LoaderHandle<L>>, E>)
        requires
            cache.wf(),
        ensures
            !in_namespace(self.namespace@, name@) ==> (r matches Ok(None)),
            in_namespace(self.namespace@, name@) ==> !(r matches Ok(None)),
            r matches Ok(Some(h)) ==> in_namespace(self.namespace@, name@) && can_construct::<
                L,
                E,
                F,
            >(cache.constructor(), request_key(name@, options), h.loader()),
            r is Err ==> in_namespace(self.namespace@, name@),
            r is Err ==> exists|key: LoaderKey|
                key@ == request_key(name@, options) && #[trigger] cache.constructor().ensures(
                    (&key,),
                    Err::<L, E>(r->Err_0),
                ),
    {
        if !self.owns(name) {
            return Ok(None);
        }
        let key = request_key_of(name, options);
        let ghost asked = key;
        match cache.get_or_construct(key) {
            Ok(h) => Ok(Some(h)),
            Err(e) => {
                let out: Result<Option<LoaderHandle<L>>, E> = Err(e);
                assert(cache.constructor().ensures((&asked,), Err::<L, E>(out->Err_0)));
                out
            },
        }
    }
}

/// The key for a request with this name and configuration.
fn request_key_of(name: &str, options: Option<&str>) -> (r: LoaderKey)
    ensures
        r@ == request_key(name@, options),
{
    match options {
        Some(o) => LoaderKey::new(name, o),
        None => {
            proof {
                reveal_strlit("");
            }
            LoaderKey::new(name, "")
        },
    }
}

} // verus!
