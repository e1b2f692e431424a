use vstd::prelude::*;
use crate::datastore::{ListStep, PAGE_SIZE};
use crate::error::Error;
use crate::page::{continuation_token, copy_texts, texts, PageChain, PageRecord, PageView};
use crate::scope::{ScopeKey, ScopeView};
use crate::token::percent_encoded;

verus! {

/// A request for one page of an entry's revision history.
#[derive(Debug)]
pub struct RevisionRequest {
    pub scope: ScopeKey,
    pub entry_id: String,
    pub page_index: u64,
    /// The continuation token, percent-encoded.
    pub page_token: String,
    pub page_size: u64,
}

/// The revision cache as plain values: the entry whose history is cached,
/// and the pages of that history.
pub struct RevisionCacheView {
    pub owner: Option<(ScopeView, Seq<char>)>,
    pub pages: Map<u64, PageView>,
}

/// The cache once the history of `id` in `scope` is the one browsed:
/// unchanged for the same entry; otherwise its pages are dropped.
pub open spec fn adopt_entry(c: RevisionCacheView, scope: ScopeView, id: Seq<char>) -> RevisionCacheView {
    if c.owner == Some((scope, id)) {
        c
    } else {
        RevisionCacheView { owner: Some((scope, id)), pages: Map::empty() }
    }
}

/// Pages of the revision history of one entry at a time.
pub struct RevisionCache {
    owner: Option<(ScopeKey, String)>,
    pages: PageChain,
}

impl View for RevisionCache {
    type V = RevisionCacheView;

    closed spec fn view(&self) -> RevisionCacheView {
        RevisionCacheView {
            owner: match self.owner {
                Some((s, id)) => Some((s@, id@)),
                None => None,
            },
            pages: self.pages@,
        }
    }
}

impl RevisionCache {
    /// An empty cache, for no entry yet.
    pub fn new() -> (r: RevisionCache)
        ensures
            r@ == (RevisionCacheView { owner: None, pages: Map::empty() }),
    {
        RevisionCache { owner: None, pages: PageChain::new() }
    }

    /// Makes `entry_id` of `scope` the entry whose history is cached.
    fn adopt_entry(&mut self, scope: ScopeKey, entry_id: String)
        ensures
            final(self)@ == adopt_entry(old(self)@, scope@, entry_id@),
    {
        let same = match &self.owner {
            Some((s, id)) => s.eq(&scope) && String::eq(id, &entry_id),
            None => false,
        };
        if !same {
            self.pages.clear();
            self.owner = Some((scope, entry_id));
        }
    }

    /// First step of listing page `page_index` of the revisions of
    /// `entry_id`: the cached page, or the request that fetches it with the
    /// token of the page before.
    pub fn list_revisions(&mut self, scope: ScopeKey, entry_id: String, page_index: u64) -> (r:
        ListStep<RevisionRequest>)
        ensures
            final(self)@ == adopt_entry(old(self)@, scope@, entry_id@),
            match r {
                ListStep::Cached(items) => final(self)@.pages.contains_key(page_index)
                    && texts(items@) == final(self)@.pages[page_index].items,
                ListStep::Fetch(req) => !final(self)@.pages.contains_key(page_index)
                    && req.scope@ == scope@ && req.entry_id@ == entry_id@
                    && req.page_index == page_index && req.page_token@ == percent_encoded(
                    continuation_token(final(self)@.pages, page_index),
                ) && req.page_size == PAGE_SIZE,
            },
    {
        let key = scope.copy();
        let id = entry_id.clone();
        self.adopt_entry(scope, entry_id);
        match self.pages.cached_items(page_index) {
            Some(items) => ListStep::Cached(items),
            None => {
                let page_token = self.pages.request_token(page_index);
                ListStep::Fetch(
                    RevisionRequest { scope: key, entry_id: id, page_index, page_token, page_size: PAGE_SIZE },
                )
            },
        }
    }

    /// Second step of listing revisions: stores the fetched page and hands
    /// back its items; a failure is handed back with the cache untouched.
    pub fn finish_list_revisions(
        &mut self,
        request: &RevisionRequest,
        outcome: Result<PageRecord, Error>,
    ) -> (r: Result<Vec<String>, Error>)
        ensures
            match outcome {
                Ok(page) => final(self)@ == (RevisionCacheView {
                    pages: old(self)@.pages.insert(request.page_index, page@),
                    ..old(self)@
                }) && (r matches Ok(items) && texts(items@) == page@.items),
                Err(e) => final(self)@ == old(self)@ && r == Err::<Vec<String>, Error>(e),
            },
    {
        match outcome {
            Ok(page) => {
                let items = copy_texts(&page.items);
                self.pages.insert(request.page_index, page);
                Ok(items)
            },
            Err(e) => Err(e),
        }
    }
    /// The revision page cached at `index`, if any.
    pub fn page(&self, index: u64) -> (r: Option<&PageRecord>)
        ensures
            match r {
                Some(p) => self@.pages.contains_key(index) && p@ == self@.pages[index],
                None => !self@.pages.contains_key(index),
            },
    {
        self.pages.page(index)
    }
}

} // verus!
