use vstd::prelude::*;
use crate::entry::{EntryRecord, EntryStore, EntryView};
use crate::error::Error;
use crate::page::{continuation_token, strip_entry, texts, PageChain, PageRecord, PageView};
use crate::scope::{copy_opt, opt_view, ScopeKey, ScopeView};
use crate::token::percent_encoded;

verus! {

/// The number of entries asked for with each page.
pub const PAGE_SIZE: u64 = 25;

/// A request for one page of a listing.
#[derive(Debug)]
pub struct PageRequest {
    pub scope: ScopeKey,
    pub page_index: u64,
    /// The continuation token, percent-encoded.
    pub page_token: String,
    pub page_size: u64,
}

/// The first step of a listing: the page from memory, or what to fetch.
#[derive(Debug)]
pub enum ListStep<R> {
    Cached(Vec<String>),
    Fetch(R),
}

/// A request for one entry, at its current revision or at a given one.
#[derive(Debug)]
pub struct EntryRequest {
    pub scope: ScopeKey,
    pub entry_id: String,
    pub revision_id: Option<String>,
}

/// The first step of a lookup: the record from memory, or what to fetch.
#[derive(Debug)]
pub enum GetStep {
    Cached(EntryRecord),
    Fetch(EntryRequest),
}

/// A request to write an entry (update or create).
#[derive(Debug)]
pub struct WriteRequest {
    pub scope: ScopeKey,
    pub entry_id: String,
    pub value: String,
    pub users: Vec<u64>,
    pub attributes: Option<String>,
}

/// A request to delete an entry listed on a page.
#[derive(Debug)]
pub struct DeleteRequest {
    pub scope: ScopeKey,
    pub page_index: u64,
    pub entry_id: String,
}

/// The datastore cache as plain values.
pub struct CacheView {
    pub scope: Option<ScopeView>,
    pub pages: Map<u64, PageView>,
    pub entries: Map<Seq<char>, EntryView>,
}

/// The cache once a listing of `scope` starts: unchanged under the same
/// scope; otherwise pages and entries are dropped together. Only a listing
/// changes the scope; lookups and writes leave it as it is.
pub open spec fn adopt(c: CacheView, scope: ScopeView) -> CacheView {
    if c.scope == Some(scope) {
        c
    } else {
        CacheView { scope: Some(scope), pages: Map::empty(), entries: Map::empty() }
    }
}

/// Whether a lookup of `id` is answered from memory: only for the current
/// revision, and only when the record is cached.
pub open spec fn entry_hit(c: CacheView, id: Seq<char>, revision: Option<Seq<char>>) -> bool {
    revision is None && c.entries.contains_key(id)
}

/// The cache after page `index` was fetched.
pub open spec fn after_list(c: CacheView, index: u64, page: PageView) -> CacheView {
    CacheView { pages: c.pages.insert(index, page), ..c }
}

/// The cache after `id` was fetched: a specific revision is never stored as
/// if it were the current record.
pub open spec fn after_get(
    c: CacheView,
    id: Seq<char>,
    revision: Option<Seq<char>>,
    record: EntryView,
) -> CacheView {
    if revision is None {
        CacheView { entries: c.entries.insert(id, record), ..c }
    } else {
        c
    }
}

/// The cache after `id` was updated: a cached record is replaced, and none
/// is added.
pub open spec fn after_update(c: CacheView, id: Seq<char>, record: EntryView) -> CacheView {
    if c.entries.contains_key(id) {
        CacheView { entries: c.entries.insert(id, record), ..c }
    } else {
        c
    }
}

/// The cache after `id` was created.
pub open spec fn after_create(c: CacheView, id: Seq<char>, record: EntryView) -> CacheView {
    CacheView { entries: c.entries.insert(id, record), ..c }
}

/// The cache after `id`, listed on page `index`, was deleted.
pub open spec fn after_delete(c: CacheView, index: u64, id: Seq<char>) -> CacheView {
    CacheView { pages: strip_entry(c.pages, index, id), entries: c.entries.remove(id), ..c }
}

/// The cache of one datastore scope: pages of entry ids and full records.
pub struct DatastoreCache {
    scope: Option<ScopeKey>,
    pages: PageChain,
    entries: EntryStore,
}

impl View for DatastoreCache {
    type V = CacheView;

    closed spec fn view(&self) -> CacheView {
        CacheView {
            scope: match self.scope {
                Some(s) => Some(s@),
                None => None,
            },
            pages: self.pages@,
            entries: self.entries@,
        }
    }
}

impl DatastoreCache {
    /// An empty cache, under no scope yet.
    pub fn new() -> (r: DatastoreCache)
        ensures
            r@ == (CacheView { scope: None, pages: Map::empty(), entries: Map::empty() }),
    {
        DatastoreCache { scope: None, pages: PageChain::new(), entries: EntryStore::new() }
    }

    /// Makes `scope` the current scope, dropping pages and entries together
    /// when it differs from the current one in any field.
    fn adopt_scope(&mut self, scope: ScopeKey)
        ensures
            final(self)@ == adopt(old(self)@, scope@),
    {
        let same = match &self.scope {
            Some(current) => current.eq(&scope),
            None => false,
        };
        if !same {
            self.pages.clear();
            self.entries.clear();
            self.scope = Some(scope);
        }
    }

    /// First step of listing page `page_index` of `scope`: the cached page,
    /// or the request that fetches it with the token of the page before.
    pub fn list_page(&mut self, scope: ScopeKey, page_index: u64) -> (r: ListStep<PageRequest>)
        ensures
            final(self)@ == adopt(old(self)@, scope@),
            match r {
                ListStep::Cached(items) => final(self)@.pages.contains_key(page_index)
                    && texts(items@) == final(self)@.pages[page_index].items,
                ListStep::Fetch(req) => !final(self)@.pages.contains_key(page_index)
                    && req.scope@ == scope@ && req.page_index == page_index
                    && req.page_token@ == percent_encoded(
                    continuation_token(final(self)@.pages, page_index),
                ) && req.page_size == PAGE_SIZE,
            },
    {
        let key = scope.copy();
        self.adopt_scope(scope);
        match self.pages.cached_items(page_index) {
            Some(items) => ListStep::Cached(items),
            None => {
                let page_token = self.pages.request_token(page_index);
                ListStep::Fetch(PageRequest { scope: key, page_index, page_token, page_size: PAGE_SIZE })
            },
        }
    }

    /// Second step of listing: stores the fetched page and hands back its
    /// items; a failure is handed back with the cache untouched.
    pub fn finish_list_page(&mut self, request: &PageRequest, outcome: Result<PageRecord, Error>) -> (r:
        Result<Vec<String>, Error>)
        ensures
            match outcome {
                Ok(page) => final(self)@ == after_list(old(self)@, request.page_index, page@)
                    && (r matches Ok(items) && texts(items@) == page@.items),
                Err(e) => final(self)@ == old(self)@ && r == Err::<Vec<String>, Error>(e),
            },
    {
        match outcome {
            Ok(page) => {
                let items = crate::page::copy_texts(&page.items);
                self.pages.insert(request.page_index, page);
                Ok(items)
            },
            Err(e) => Err(e),
        }
    }

    /// First step of looking up `entry_id` in `scope`: the cached record when
    /// the current revision is asked for and is cached, else the request.
    /// The cache is left as it is: only a listing changes the scope.
    pub fn get_entry(&self, scope: ScopeKey, entry_id: String, revision_id: Option<String>) -> (r:
        GetStep)
        ensures
            match r {
                GetStep::Cached(record) => entry_hit(self@, entry_id@, opt_view(revision_id))
                    && record@ == self@.entries[entry_id@],
                GetStep::Fetch(req) => !entry_hit(self@, entry_id@, opt_view(revision_id))
                    && req.scope@ == scope@ && req.entry_id@ == entry_id@
                    && opt_view(req.revision_id) == opt_view(revision_id),
            },
    {
        if revision_id.is_none() {
            match self.entries.get(entry_id.as_str()) {
                Some(record) => {
                    return GetStep::Cached(record.copy());
                },
                None => {},
            }
        }
        GetStep::Fetch(EntryRequest { scope, entry_id, revision_id })
    }

    /// Second step of a lookup: stores the fetched record when it is the
    /// current revision, and hands it back; a failure is handed back with
    /// the cache untouched.
    pub fn finish_get_entry(&mut self, request: &EntryRequest, outcome: Result<EntryRecord, Error>) -> (r:
        Result<EntryRecord, Error>)
        ensures
            match outcome {
                Ok(record) => final(self)@ == after_get(
                    old(self)@,
                    request.entry_id@,
                    opt_view(request.revision_id),
                    record@,
                ) && (r matches Ok(back) && back@ == record@),
                Err(e) => final(self)@ == old(self)@ && r == Err::<EntryRecord, Error>(e),
            },
    {
        match outcome {
            Ok(record) => {
                if request.revision_id.is_none() {
                    let back = record.copy();
                    self.entries.insert(request.entry_id.clone(), record);
                    Ok(back)
                } else {
                    Ok(record)
                }
            },
            Err(e) => Err(e),
        }
    }

    /// First step of updating `entry_id`: the request, under the current
    /// scope of the cache (the active datastore is implicit context); `scope`
    /// is used only when the cache has no scope yet. The cache is left as it
    /// is.
    pub fn update_entry(
        &self,
        scope: ScopeKey,
        entry_id: String,
        value: String,
        users: Vec<u64>,
        attributes: Option<String>,
    ) -> (r: WriteRequest)
        ensures
            match self@.scope {
                Some(current) => r.scope@ == current,
                None => r.scope@ == scope@,
            },
            r.entry_id == entry_id,
            r.value == value,
            r.users == users,
            r.attributes == attributes,
    {
        let key = match &self.scope {
            Some(current) => current.copy(),
            None => scope,
        };
        WriteRequest { scope: key, entry_id, value, users, attributes }
    }

    /// Second step of an update: replaces the cached record, if one is
    /// cached, and hands back the new one; a failure is handed back with the
    /// cache untouched.
    pub fn finish_update_entry(&mut self, request: &WriteRequest, outcome: Result<EntryRecord, Error>) -> (r:
        Result<EntryRecord, Error>)
        ensures
            match outcome {
                Ok(record) => final(self)@ == after_update(old(self)@, request.entry_id@, record@)
                    && (r matches Ok(back) && back@ == record@),
                Err(e) => final(self)@ == old(self)@ && r == Err::<EntryRecord, Error>(e),
            },
    {
        match outcome {
            Ok(record) => {
                if self.entries.contains(request.entry_id.as_str()) {
                    let back = record.copy();
                    self.entries.insert(request.entry_id.clone(), record);
                    Ok(back)
                } else {
                    Ok(record)
                }
            },
            Err(e) => Err(e),
        }
    }

    /// First step of creating `entry_id`: the request, under `scope`. The
    /// cache is left as it is.
    pub fn create_entry(
        &self,
        scope: ScopeKey,
        entry_id: String,
        value: String,
        users: Vec<u64>,
        attributes: Option<String>,
    ) -> (r: WriteRequest)
        ensures
            r.scope@ == scope@,
            r.entry_id == entry_id,
            r.value == value,
            r.users == users,
            r.attributes == attributes,
    {
        WriteRequest { scope, entry_id, value, users, attributes }
    }

    /// Second step of a creation: stores the new record and hands it back;
    /// a failure is handed back with the cache untouched.
    pub fn finish_create_entry(&mut self, request: &WriteRequest, outcome: Result<EntryRecord, Error>) -> (r:
        Result<EntryRecord, Error>)
        ensures
            match outcome {
                Ok(record) => final(self)@ == after_create(old(self)@, request.entry_id@, record@)
                    && (r matches Ok(back) && back@ == record@),
                Err(e) => final(self)@ == old(self)@ && r == Err::<EntryRecord, Error>(e),
            },
    {
        match outcome {
            Ok(record) => {
                let back = record.copy();
                self.entries.insert(request.entry_id.clone(), record);
                Ok(back)
            },
            Err(e) => Err(e),
        }
    }

    /// First step of deleting `entry_id`, listed on page `page_index`: the
    /// request, under `scope`. The cache is left as it is until the remote
    /// delete has succeeded.
    pub fn delete_entry(&self, scope: ScopeKey, page_index: u64, entry_id: String) -> (r:
        DeleteRequest)
        ensures
            r.scope@ == scope@,
            r.page_index == page_index,
            r.entry_id == entry_id,
    {
        DeleteRequest { scope, page_index, entry_id }
    }

    /// Second step of a deletion: once the remote delete succeeded, forgets
    /// the record and strikes the id from its page; a failure is handed back
    /// with the cache untouched.
    pub fn finish_delete_entry(&mut self, request: &DeleteRequest, outcome: Result<(), Error>) -> (r:
        Result<(), Error>)
        ensures
            r == outcome,
            match outcome {
                Ok(_) => final(self)@ == after_delete(old(self)@, request.page_index, request.entry_id@),
                Err(_) => final(self)@ == old(self)@,
            },
    {
        if outcome.is_ok() {
            self.entries.remove(request.entry_id.as_str());
            self.pages.strip(request.page_index, &request.entry_id);
        }
        outcome
    }
    /// The current scope, if any.
    pub fn scope(&self) -> (r: Option<&ScopeKey>)
        ensures
            match r {
                Some(s) => self@.scope == Some(s@),
                None => self@.scope is None,
            },
    {
        self.scope.as_ref()
    }

    /// The page cached at `index`, if any.
    pub fn page(&self, index: u64) -> (r: Option<&PageRecord>)
        ensures
            match r {
                Some(p) => self@.pages.contains_key(index) && p@ == self@.pages[index],
                None => !self@.pages.contains_key(index),
            },
    {
        self.pages.page(index)
    }

    /// The record cached under `id`, if any.
    pub fn entry(&self, id: &str) -> (r: Option<&EntryRecord>)
        ensures
            match r {
                Some(e) => self@.entries.contains_key(id@) && e@ == self@.entries[id@],
                None => !self@.entries.contains_key(id@),
            },
    {
        self.entries.get(id)
    }
}

} // verus!
