//! Memoisation of expensive loader construction, the hook that resolves loader
//! requests through it, allocation-delta arithmetic, and the control logic of a
//! rebuild-and-sample loop used to look for memory growth across rebuilds.

pub mod cache;
pub mod hook;
pub mod key;
pub mod probe;
pub mod session;
pub mod shared;

pub use cache::LoaderCache;
pub use shared::SharedLoaderCache;
pub use hook::LoaderResolver;
pub use session::{Action, Event, Phase, RebuildSession};
pub use probe::{drift_exceeds, AllocationStats, Snapshot};
pub use key::{KeyView, LoaderHandle, LoaderKey};
