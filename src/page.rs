use std::collections::HashMap;
use vstd::prelude::*;
use crate::token::{percent_encode, percent_encoded};

verus! {

broadcast use vstd::std_specs::hash::group_hash_axioms;

/// The views of a sequence of strings.
pub open spec fn texts(items: Seq<String>) -> Seq<Seq<char>> {
    items.map_values(|s: String| s@)
}

/// A copy of a list of strings.
pub fn copy_texts(items: &Vec<String>) -> (r: Vec<String>)
    ensures
        r@ == items@,
{
    let mut out: Vec<String> = Vec::new();
    let mut i: usize = 0;
    while i < items.len()
        invariant
            i <= items.len(),
            out@ == items@.subrange(0, i as int),
        decreases items.len() - i,
    {
        out.push(items[i].clone());
        i += 1;
        assert(out@ =~= items@.subrange(0, i as int));
    }
    assert(out@ =~= items@);
    out
}

/// One page of a listing: the ids on it, in order, and the token that
/// continues the listing after it (none on the last page).
#[derive(Clone, Debug, PartialEq, Eq)]
pub struct PageRecord {
    pub items: Vec<String>,
    pub next_page_token: Option<String>,
}

/// A page as plain values.
pub struct PageView {
    pub items: Seq<Seq<char>>,
    pub next_page_token: Option<Seq<char>>,
}

impl View for PageRecord {
    type V = PageView;

    open spec fn view(&self) -> PageView {
        PageView {
            items: texts(self.items@),
            next_page_token: crate::scope::opt_view(self.next_page_token),
        }
    }
}

/// The token with which page `index` is fetched: empty for the first page;
/// otherwise the token stored with the page before it, or empty where that
/// page is not cached or ended the listing. Pages are chained backward one
/// step only: no missing page before it is fetched on the way.
pub open spec fn continuation_token(pages: Map<u64, PageView>, index: u64) -> Seq<char> {
    if index == 0 {
        Seq::empty()
    } else if pages.contains_key((index - 1) as u64) {
        match pages[(index - 1) as u64].next_page_token {
            Some(t) => t,
            None => Seq::empty(),
        }
    } else {
        Seq::empty()
    }
}

/// Holds of every text but `id`.
pub open spec fn other_than(id: Seq<char>) -> spec_fn(Seq<char>) -> bool {
    |s: Seq<char>| s != id
}

/// The items of a page with every occurrence of `id` taken out.
pub open spec fn without(items: Seq<Seq<char>>, id: Seq<char>) -> Seq<Seq<char>> {
    items.filter(other_than(id))
}

/// The pages after `id` is struck from page `index`; other pages, and the
/// numbering, stay as they are.
pub open spec fn strip_entry(pages: Map<u64, PageView>, index: u64, id: Seq<char>) -> Map<
    u64,
    PageView,
> {
    if pages.contains_key(index) {
        pages.insert(
            index,
            PageView {
                items: without(pages[index].items, id),
                next_page_token: pages[index].next_page_token,
            },
        )
    } else {
        pages
    }
}

/// Pages of one listing, keyed by their zero-based index.
pub struct PageChain {
    pages: HashMap<u64, PageRecord>,
}

impl View for PageChain {
    type V = Map<u64, PageView>;

    closed spec fn view(&self) -> Map<u64, PageView> {
        self.pages@.map_values(|p: PageRecord| p@)
    }
}

impl PageChain {
    /// A chain with no page.
    pub fn new() -> (r: PageChain)
        ensures
            r@ == Map::<u64, PageView>::empty(),
    {
        let r = PageChain { pages: HashMap::new() };
        assert(r@ =~= Map::<u64, PageView>::empty());
        r
    }

    /// The page cached at `index`, if any.
    pub fn page(&self, index: u64) -> (r: Option<&PageRecord>)
        ensures
            match r {
                Some(p) => self@.contains_key(index) && p@ == self@[index],
                None => !self@.contains_key(index),
            },
    {
        self.pages.get(&index)
    }

    /// The unencoded token with which page `index` is fetched.
    pub fn continuation_token(&self, index: u64) -> (r: String)
        ensures
            r@ == continuation_token(self@, index),
    {
        if index == 0 {
            return String::new();
        }
        match self.pages.get(&(index - 1)) {
            Some(p) => match &p.next_page_token {
                Some(t) => t.clone(),
                None => String::new(),
            },
            None => String::new(),
        }
    }

    /// A copy of the items of page `index`, when that page is cached.
    pub fn cached_items(&self, index: u64) -> (r: Option<Vec<String>>)
        ensures
            match r {
                Some(items) => self@.contains_key(index) && texts(items@) == self@[index].items,
                None => !self@.contains_key(index),
            },
    {
        match self.pages.get(&index) {
            Some(p) => Some(copy_texts(&p.items)),
            None => None,
        }
    }

    /// The token with which page `index` is requested, percent-encoded for
    /// the remote service.
    pub fn request_token(&self, index: u64) -> (r: String)
        ensures
            r@ == percent_encoded(continuation_token(self@, index)),
    {
        let raw = self.continuation_token(index);
        percent_encode(raw.as_str())
    }

    /// Stores `record` as page `index`, replacing what was there.
    pub fn insert(&mut self, index: u64, record: PageRecord)
        ensures
            final(self)@ == old(self)@.insert(index, record@),
    {
        self.pages.insert(index, record);
        assert(self@ =~= old(self)@.insert(index, record@));
    }

    /// Forgets every page.
    pub fn clear(&mut self)
        ensures
            final(self)@ == Map::<u64, PageView>::empty(),
    {
        self.pages.clear();
        assert(self@ =~= Map::<u64, PageView>::empty());
    }

    /// Strikes `id` from the items of page `index`, if that page is cached.
    pub fn strip(&mut self, index: u64, id: &String)
        ensures
            final(self)@ == strip_entry(old(self)@, index, id@),
    {
        match self.pages.remove(&index) {
            Some(p) => {
                let kept = remove_text(&p.items, id);
                let record = PageRecord { items: kept, next_page_token: p.next_page_token };
                self.pages.insert(index, record);
                assert(self@ =~= strip_entry(old(self)@, index, id@));
            },
            None => {
                assert(self@ =~= old(self)@);
            },
        }
    }
}

/// The items with every occurrence of `id` taken out, in order.
fn remove_text(items: &Vec<String>, id: &String) -> (r: Vec<String>)
    ensures
        texts(r@) == without(texts(items@), id@),
{
    let mut out: Vec<String> = Vec::new();
    let mut i: usize = 0;
    while i < items.len()
        invariant
            i <= items.len(),
            texts(out@) == without(texts(items@.subrange(0, i as int)), id@),
        decreases items.len() - i,
    {
        let ghost next = texts(items@.subrange(0, i as int + 1));
        assert(next.drop_last() =~= texts(items@.subrange(0, i as int)));
        assert(next.len() == i + 1);
        proof {
            reveal(Seq::filter);
        }
        assert(next.last() == items@[i as int]@);
        assert(without(next, id@) == (if next.last() != id@ {
            without(next.drop_last(), id@).push(next.last())
        } else {
            without(next.drop_last(), id@)
        }));
        let ghost prev = out@;
        if !String::eq(&items[i], id) {
            out.push(items[i].clone());
            assert(texts(out@) =~= texts(prev).push(items@[i as int]@));
        }
        i += 1;
    }
    assert(items@.subrange(0, items.len() as int) =~= items@);
    out
}

} // verus!
