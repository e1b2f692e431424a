//! A paginated cache over a remote key-value datastore service.
//!
//! The caches decide when a page of entry ids, a page of revisions or a full
//! entry record can be served from memory and when the remote service must be
//! asked. Each operation is split in two steps: a first call decides (answer
//! from memory, or a request to send), and a second call takes the outcome of
//! the request and brings the cache up to date. The caller performs the
//! request in between, holding the cache exclusively for the whole operation.
pub mod datastore;
pub mod entry;
pub mod error;
pub mod laws;
pub mod page;
pub mod revision;
pub mod scope;
pub mod token;
pub mod universe;

pub use datastore::{
    DatastoreCache, DeleteRequest, EntryRequest, GetStep, ListStep, PageRequest, WriteRequest,
    PAGE_SIZE,
};
pub use entry::{EntryRecord, EntryStore};
pub use error::{Error, ErrorKind, RemoteFailure};
pub use page::{PageChain, PageRecord};
pub use revision::{RevisionCache, RevisionRequest};
pub use scope::ScopeKey;
pub use universe::{collect_universes, InitInfo, StoredUniverse};
