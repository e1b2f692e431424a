use pulse::{ListStep, PageRecord, RevisionCache, RevisionRequest, ScopeKey};

fn scope() -> ScopeKey {
    ScopeKey { universe_id: 42, datastore_id: "Players".to_string(), filter: None }
}

fn page(items: &[&str], next: Option<&str>) -> PageRecord {
    PageRecord {
        items: items.iter().map(|s| s.to_string()).collect(),
        next_page_token: next.map(|t| t.to_string()),
    }
}

fn expect_fetch(step: ListStep<RevisionRequest>) -> RevisionRequest {
    match step {
        ListStep::Fetch(req) => req,
        ListStep::Cached(items) => panic!("expected a fetch, got cached {:?}", items),
    }
}

#[test]
fn revision_pages_chain_and_hit() {
    let mut cache = RevisionCache::new();
    let req0 = expect_fetch(cache.list_revisions(scope(), "A".to_string(), 0));
    assert_eq!(req0.entry_id, "A");
    assert_eq!(req0.page_token, "");
    assert_eq!(req0.page_size, 25);
    let items = cache.finish_list_revisions(&req0, Ok(page(&["r2", "r1"], Some("N1")))).unwrap();
    assert_eq!(items, vec!["r2", "r1"]);
    let req1 = expect_fetch(cache.list_revisions(scope(), "A".to_string(), 1));
    assert_eq!(req1.page_token, "N1");
    match cache.list_revisions(scope(), "A".to_string(), 0) {
        ListStep::Cached(items) => assert_eq!(items, vec!["r2", "r1"]),
        ListStep::Fetch(_) => panic!("expected a cache hit"),
    }
}

#[test]
fn revisions_of_another_entry_are_not_served() {
    let mut cache = RevisionCache::new();
    let req = expect_fetch(cache.list_revisions(scope(), "A".to_string(), 0));
    cache.finish_list_revisions(&req, Ok(page(&["a1"], None))).unwrap();
    let req_b = expect_fetch(cache.list_revisions(scope(), "B".to_string(), 0));
    assert_eq!(req_b.entry_id, "B");
    assert!(cache.page(0).is_none());
    cache.finish_list_revisions(&req_b, Ok(page(&["b1"], None))).unwrap();
    let again_a = expect_fetch(cache.list_revisions(scope(), "A".to_string(), 0));
    assert_eq!(again_a.entry_id, "A");
}

#[test]
fn failed_revision_fetch_leaves_cache_untouched() {
    let mut cache = RevisionCache::new();
    let req = expect_fetch(cache.list_revisions(scope(), "A".to_string(), 0));
    let err = pulse::Error { kind: pulse::ErrorKind::NotFound };
    assert_eq!(cache.finish_list_revisions(&req, Err(err)), Err(err));
    assert!(cache.page(0).is_none());
}
