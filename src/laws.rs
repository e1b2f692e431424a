use vstd::prelude::*;
use crate::datastore::{adopt, after_delete, after_get, after_update, entry_hit, CacheView};
use crate::entry::EntryView;
use crate::page::{continuation_token, other_than, without, PageView};
use crate::revision::{adopt_entry, RevisionCacheView};
use crate::scope::ScopeView;

verus! {

/// Pages are chained one step backward: page `index` is fetched with the
/// token stored with page `index - 1` when that page is cached (empty where
/// it was the last one), and with an empty token when it is not.
pub proof fn lemma_sequential_chaining(pages: Map<u64, PageView>, index: u64)
    requires
        index > 0,
    ensures
        !pages.contains_key((index - 1) as u64) ==> continuation_token(pages, index)
            == Seq::<char>::empty(),
        pages.contains_key((index - 1) as u64) ==> continuation_token(pages, index) == (match pages[(
        index - 1) as u64].next_page_token {
            Some(t) => t,
            None => Seq::<char>::empty(),
        }),
{
}

/// A scope that differs from the current one in any field drops every
/// cached page and entry: no page of the old scope is served under the new.
pub proof fn lemma_scope_change_clears(c: CacheView, scope: ScopeView, index: u64)
    requires
        c.scope != Some(scope),
    ensures
        adopt(c, scope).scope == Some(scope),
        adopt(c, scope).pages == Map::<u64, PageView>::empty(),
        adopt(c, scope).entries == Map::<Seq<char>, EntryView>::empty(),
        !adopt(c, scope).pages.contains_key(index),
{
}

/// Two lookups of the current revision of `id` in a row: when the first
/// one fetches `record`, the second is answered from memory with that same
/// record; when the first is answered from memory, the cache is unchanged
/// and so the second is answered with the same record.
pub proof fn lemma_get_twice(c: CacheView, id: Seq<char>, record: EntryView)
    ensures
        !entry_hit(c, id, None) ==> {
            let second = after_get(c, id, None, record);
            &&& entry_hit(second, id, None)
            &&& second.entries[id] == record
            &&& second.pages == c.pages
            &&& second.scope == c.scope
        },
{
}

/// An update of an entry that is not cached caches nothing and changes
/// nothing else: the next lookup of that entry goes to the remote service.
pub proof fn lemma_update_without_fetch(c: CacheView, id: Seq<char>, record: EntryView)
    requires
        !c.entries.contains_key(id),
    ensures
        after_update(c, id, record) == c,
        !entry_hit(after_update(c, id, record), id, None),
{
}

/// After a successful delete the id is neither cached as an entry nor
/// listed on its page; every page keeps its index.
pub proof fn lemma_delete_removes(c: CacheView, index: u64, id: Seq<char>)
    ensures
        !after_delete(c, index, id).entries.contains_key(id),
        after_delete(c, index, id).pages.dom() == c.pages.dom(),
        c.pages.contains_key(index) ==> !after_delete(c, index, id).pages[index].items.contains(id),
        forall|k: u64| k != index && c.pages.contains_key(k) ==> after_delete(c, index, id).pages[k]
            == c.pages[k],
{
    if c.pages.contains_key(index) {
        let kept = without(c.pages[index].items, id);
        assert forall|k: int| 0 <= k < kept.len() implies kept[k] != id by {
            c.pages[index].items.lemma_filter_pred(other_than(id), k);
        }
        assert(after_delete(c, index, id).pages.dom() =~= c.pages.dom());
    } else {
        assert(after_delete(c, index, id).pages == c.pages);
    }
}

/// Switching from the history of entry `a` to that of entry `b` drops every
/// cached revision page: no page of `a` is served for `b`.
pub proof fn lemma_revision_isolation(
    c: RevisionCacheView,
    scope: ScopeView,
    a: Seq<char>,
    b: Seq<char>,
    index: u64,
)
    requires
        c.owner == Some((scope, a)),
        a != b,
    ensures
        adopt_entry(c, scope, b).pages == Map::<u64, PageView>::empty(),
        !adopt_entry(c, scope, b).pages.contains_key(index),
{
}

} // verus!
