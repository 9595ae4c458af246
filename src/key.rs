use std::sync::Arc;
use vstd::prelude::*;

verus! {

/// The mathematical identity of a loader request: its name and its serialized
/// configuration, as character sequences.
pub type KeyView = (Seq<char>, Seq<char>);

/// Identity of a loader request: the loader's name and its serialized
/// configuration blob. Two keys are the same loader iff both parts are equal.
#[derive(Clone, Debug, PartialEq, Eq, Hash)]
pub struct LoaderKey {
    pub name: String,
    pub options: String,
}

impl View for LoaderKey {
    type V = KeyView;

    open spec fn view(&self) -> KeyView {
        (self.name@, self.options@)
    }
}

impl LoaderKey {
    pub fn new(name: &str, options: &str) -> (r: LoaderKey)
        ensures
            r@ == (name@, options@),
    {
        LoaderKey { name: name.to_owned(), options: options.to_owned() }
    }

    /// Compares both parts of the two keys.
    pub fn same_as(&self, other: &LoaderKey) -> (r: bool)
        ensures
            r == (self@ == other@),
    {
        self.name == other.name && self.options == other.options
    }
}

/// Relies on `Arc::clone`: the new pointer refers to the same allocation, so
/// it holds the same value.
#[verifier::external_body]
fn share_arc<L>(a: &Arc<L>) -> (r: Arc<L>)
    ensures
        r == *a,
{
    Arc::clone(a)
}

/// A shared, immutable handle to a constructed loader. Copies made with
/// `share` point to the same loader.
#[derive(Debug)]
pub struct LoaderHandle<L> {
    inner: Arc<L>,
}

impl<L> LoaderHandle<L> {
    /// The loader this handle refers to.
    pub closed spec fn loader(&self) -> L {
        *self.inner
    }

    pub fn new(loader: L) -> (r: LoaderHandle<L>)
        ensures
            r.loader() == loader,
    {
        LoaderHandle { inner: Arc::new(loader) }
    }

    /// Another holder of the same loader.
    pub fn share(&self) -> (r: LoaderHandle<L>)
        ensures
            r == *self,
    {
        LoaderHandle { inner: share_arc(&self.inner) }
    }

    pub fn get(&self) -> (r: &L)
        ensures
            *r == self.loader(),
    {
        &*self.inner
    }
}

} // verus!
