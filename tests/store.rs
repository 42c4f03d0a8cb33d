use shorty::config::Config;
use shorty::error::ShortyError;
use shorty::link::{Link, LinkConfig};
use shorty::store::LinkStore;

fn config() -> Config {
    Config {
        listen_url: "127.0.0.1".to_owned(),
        public_url: "https://sho.rt".to_owned(),
        port: 7999,
        database_location: "links.json".to_owned(),
        max_link_length: 40,
        max_json_size: 2097152,
        max_custom_id_length: 8,
        default_max_uses: 0,
        default_valid_for: 86400000,
        frontend_location: None,
    }
}

fn custom(link: &str, id: &str, max_uses: i64, valid_for: i64) -> LinkConfig {
    LinkConfig {
        link: link.to_owned(),
        custom_id: Some(id.to_owned()),
        max_uses,
        valid_for,
    }
}

#[test]
fn link_with_two_uses_resolves_exactly_twice() {
    let mut store = LinkStore::new(&config());
    store.create_link_with_config_at(custom("https://a.org", "abc", 2, 0), 1000).unwrap();
    assert!(store.get_at("abc", 1001).is_some());
    assert!(store.get_at("abc", 1002).is_some());
    assert!(store.get_at("abc", 1003).is_none());
    assert!(store.get_at("abc", 1004).is_none());
}

#[test]
fn link_with_time_bound_expires_after_it() {
    let mut store = LinkStore::new(&config());
    store.create_link_with_config_at(custom("https://a.org", "t", 0, 1000), 5000).unwrap();
    assert!(store.get_at("t", 5000).is_some());
    assert!(store.get_at("t", 5999).is_some());
    assert!(store.get_at("t", 6000).is_some());
    assert!(store.get_at("t", 6001).is_none());
}

#[test]
fn lookups_count_every_use() {
    let mut store = LinkStore::new(&config());
    store.create_link_with_config_at(custom("https://a.org", "n", 0, 0), 0).unwrap();
    let mut last: Option<Link> = None;
    for i in 0..50 {
        last = store.get_at("n", i);
        assert!(last.is_some());
    }
    assert_eq!(last.unwrap().invocations, 50);
}

#[test]
fn zero_bounds_never_expire() {
    let mut store = LinkStore::new(&config());
    store.create_link_with_config_at(custom("https://a.org", "z", 0, 0), 0).unwrap();
    for i in 0..200 {
        assert!(store.get_at("z", i).is_some());
    }
    assert!(store.get_at("z", i64::MAX).is_some());
    let l = store.get_at("z", i64::MIN).unwrap();
    assert_eq!(l.invocations, 202);
}

#[test]
fn cleanup_removes_expired_and_exhausted_links() {
    let mut store = LinkStore::new(&config());
    store.create_link_with_config_at(custom("https://a.org", "old", 0, 100), 0).unwrap();
    store.create_link_with_config_at(custom("https://b.org", "used", 1, 0), 0).unwrap();
    store.create_link_with_config_at(custom("https://c.org", "keep", 0, 0), 0).unwrap();
    assert!(store.get_at("used", 1).is_some());
    assert!(store.get_at("used", 2).is_none());
    assert_eq!(store.len(), 3);
    let removed = store.clean_at(1000);
    assert_eq!(removed, 2);
    assert_eq!(store.len(), 1);
    assert!(store.get_at("old", 1000).is_none());
    assert!(store.get_at("used", 1000).is_none());
    assert_eq!(store.get_at("keep", 1000).unwrap().redirect_to, "https://c.org");
}

#[test]
fn cleanup_keeps_link_at_its_use_bound() {
    let mut store = LinkStore::new(&config());
    store.create_link_with_config_at(custom("https://b.org", "edge", 1, 0), 0).unwrap();
    assert!(store.get_at("edge", 1).is_some());
    assert_eq!(store.clean_at(2), 0);
    assert_eq!(store.len(), 1);
    assert!(store.get_at("edge", 3).is_none());
    assert_eq!(store.clean_at(4), 1);
    assert_eq!(store.len(), 0);
}

#[test]
fn second_create_conflicts_then_replaces_expired_link() {
    let mut store = LinkStore::new(&config());
    store.create_link_with_config_at(custom("https://first.org", "abc", 0, 1000), 0).unwrap();
    let second = store.create_link_with_config_at(custom("https://second.org", "abc", 0, 0), 500);
    assert_eq!(second.unwrap_err(), ShortyError::LinkConflict);
    assert_eq!(store.get_at("abc", 600).unwrap().redirect_to, "https://first.org");
    let third = store.create_link_with_config_at(custom("https://second.org", "abc", 0, 0), 1001).unwrap();
    assert_eq!(third.invocations, 0);
    assert_eq!(third.created_at, 1001);
    assert_eq!(store.len(), 1);
    assert_eq!(store.get_at("abc", 2000).unwrap().redirect_to, "https://second.org");
}

#[test]
fn second_create_replaces_used_up_link() {
    let mut store = LinkStore::new(&config());
    store.create_link_with_config_at(custom("https://first.org", "abc", 1, 0), 0).unwrap();
    assert!(store.get_at("abc", 1).is_some());
    let again = store.create_link_with_config_at(custom("https://second.org", "abc", 0, 0), 2);
    assert_eq!(again.unwrap().redirect_to, "https://second.org");
    assert_eq!(store.get_at("abc", 3).unwrap().invocations, 1);
}

#[test]
fn conflict_check_counts_no_use() {
    let mut store = LinkStore::new(&config());
    store.create_link_with_config_at(custom("https://first.org", "abc", 2, 0), 0).unwrap();
    for _ in 0..5 {
        let r = store.create_link_with_config_at(custom("https://x.org", "abc", 0, 0), 1);
        assert_eq!(r.unwrap_err(), ShortyError::LinkConflict);
    }
    assert_eq!(store.get_at("abc", 2).unwrap().invocations, 1);
}

#[test]
fn created_link_resolves_to_its_destination() {
    let mut store = LinkStore::new(&config());
    let cfg = LinkConfig {
        link: "https://example.com".to_owned(),
        custom_id: Some("x".to_owned()),
        max_uses: 0,
        valid_for: 0,
    };
    let created = store.create_link_with_config(cfg).unwrap();
    assert_eq!(created.id, "x");
    let got = store.get("x").unwrap();
    assert_eq!(got.redirect_to, "https://example.com");
    assert_eq!(got.invocations, 1);
}

#[test]
fn unknown_id_does_not_resolve() {
    let mut store = LinkStore::new(&config());
    assert!(store.get_at("nothing", 0).is_none());
    assert!(store.get("nothing").is_none());
    assert_eq!(store.len(), 0);
}

#[test]
fn empty_link_is_rejected() {
    let mut store = LinkStore::new(&config());
    let r = store.create_link_with_config_at(custom("", "a", 0, 0), 0);
    assert_eq!(r.unwrap_err(), ShortyError::LinkEmpty);
    assert_eq!(store.create_link_at(String::new(), 0).unwrap_err(), ShortyError::LinkEmpty);
    assert_eq!(store.len(), 0);
}

#[test]
fn long_link_is_rejected() {
    let mut store = LinkStore::new(&config());
    let long = format!("https://{}", "a".repeat(33));
    assert_eq!(long.chars().count(), 41);
    let r = store.create_link_with_config_at(custom(&long, "a", 0, 0), 0);
    assert_eq!(r.unwrap_err(), ShortyError::LinkExceedsMaxLength);
    assert_eq!(store.create_link(long).unwrap_err(), ShortyError::LinkExceedsMaxLength);
    let exact = format!("https://{}", "a".repeat(32));
    assert!(store.create_link_with_config_at(custom(&exact, "a", 0, 0), 0).is_ok());
}

#[test]
fn long_custom_id_is_rejected() {
    let mut store = LinkStore::new(&config());
    let r = store.create_link_with_config_at(custom("https://a.org", "ninechars", 0, 0), 0);
    assert_eq!(r.unwrap_err(), ShortyError::CustomIDExceedsMaxLength);
    assert!(store.create_link_with_config_at(custom("https://a.org", "eightchr", 0, 0), 0).is_ok());
}

#[test]
fn random_id_create_uses_defaults() {
    let mut store = LinkStore::new(&config());
    let l = store.create_link_at("https://a.org".to_owned(), 10).unwrap();
    assert_eq!(l.id.chars().count(), 6);
    assert!(l.id.chars().all(|c| c.is_ascii_alphanumeric() || c == '-' || c == '_'));
    assert_eq!(l.max_uses, 0);
    assert_eq!(l.valid_for, 86400000);
    assert_eq!(l.created_at, 10);
    assert_eq!(store.get_at(&l.id, 11).unwrap().redirect_to, "https://a.org");
}

#[test]
fn create_link_now_stores_the_link() {
    let mut store = LinkStore::new(&config());
    let l = store.create_link("https://now.org".to_owned()).unwrap();
    assert_eq!(l.redirect_to, "https://now.org");
    assert_eq!(store.len(), 1);
    assert_eq!(store.get(&l.id).unwrap().redirect_to, "https://now.org");
    assert_eq!(store.clean(), 0);
}

#[test]
fn free_id_is_the_first_untaken_candidate() {
    let mut store = LinkStore::new(&config());
    store.create_link_with_config_at(custom("https://a.org", "aaa", 0, 0), 0).unwrap();
    store.create_link_with_config_at(custom("https://b.org", "bbb", 0, 10), 0).unwrap();
    let cands = vec!["aaa".to_owned(), "bbb".to_owned(), "ccc".to_owned()];
    assert_eq!(store.pick_free_id(cands.clone(), 5).unwrap(), "ccc");
    assert_eq!(store.pick_free_id(cands, 11).unwrap(), "bbb");
}

#[test]
fn all_candidates_taken_exhausts_retries() {
    let mut store = LinkStore::new(&config());
    store.create_link_with_config_at(custom("https://a.org", "aaa", 0, 0), 0).unwrap();
    let cands = vec!["aaa".to_owned(), "aaa".to_owned(), "aaa".to_owned()];
    assert_eq!(
        store.pick_free_id(cands, 1).unwrap_err(),
        ShortyError::RandomIDMaxRetriesExceeded
    );
    assert_eq!(store.pick_free_id(Vec::new(), 1).unwrap_err(), ShortyError::RandomIDMaxRetriesExceeded);
}

#[test]
fn taken_reports_only_resolving_links() {
    let mut store = LinkStore::new(&config());
    store.create_link_with_config_at(custom("https://a.org", "t", 0, 10), 0).unwrap();
    assert!(store.is_taken("t", 10));
    assert!(!store.is_taken("t", 11));
    assert!(!store.is_taken("u", 0));
}

#[test]
fn formatted_joins_public_url_and_id() {
    let mut store = LinkStore::new(&config());
    let l = store.create_link_with_config_at(custom("https://a.org", "abc", 0, 0), 0).unwrap();
    assert_eq!(l.formatted(&config()), "https://sho.rt/abc");
}

#[test]
fn validity_predicate_boundaries() {
    let l = Link {
        id: "a".to_owned(),
        redirect_to: "https://a.org".to_owned(),
        max_uses: 3,
        invocations: 2,
        created_at: 100,
        valid_for: 50,
    };
    assert!(!l.is_invalid_at(150));
    assert!(l.is_invalid_at(151));
    assert!(!l.is_stale_at(150));
    assert!(l.is_stale_at(151));
    let used = Link { invocations: 3, ..l.duplicate() };
    assert!(used.is_invalid_at(100));
    assert!(!used.is_stale_at(100));
    let over = Link { invocations: 4, ..l.duplicate() };
    assert!(over.is_stale_at(100));
    let forever = Link { max_uses: 0, valid_for: 0, invocations: i64::MAX, ..l.duplicate() };
    assert!(!forever.is_invalid_at(i64::MAX));
    assert!(!forever.is_invalid());
    assert!(!forever.is_stale_at(i64::MAX));
}

#[test]
fn lookup_returns_the_counted_link() {
    let mut store = LinkStore::new(&config());
    store.create_link_with_config_at(custom("https://a.org", "m", 0, 0), 0).unwrap();
    let first = store.get_at("m", 0).unwrap();
    assert_eq!(first.invocations, 1);
    assert_eq!(first.duplicate().redirect_to, "https://a.org");
}

#[test]
fn error_status_codes() {
    assert_eq!(ShortyError::LinkConflict.status_code(), 409);
    assert_eq!(ShortyError::LinkEmpty.status_code(), 400);
    assert_eq!(ShortyError::LinkExceedsMaxLength.status_code(), 400);
    assert_eq!(ShortyError::CustomIDExceedsMaxLength.status_code(), 400);
    assert_eq!(ShortyError::RandomIDMaxRetriesExceeded.status_code(), 500);
}

#[test]
fn lookup_returns_the_link_under_that_id() {
    let mut store = LinkStore::new(&config());
    store.create_link_with_config_at(custom("https://a.org", "a", 0, 0), 0).unwrap();
    store.create_link_with_config_at(custom("https://b.org", "b", 0, 0), 0).unwrap();
    assert_eq!(store.get_at("b", 1).unwrap().id, "b");
    assert_eq!(store.get("a").unwrap().id, "a");
}

#[test]
fn stored_links_restore_into_a_store() {
    let row = |id: &str, to: &str, inv: i64| Link {
        id: id.to_owned(),
        redirect_to: to.to_owned(),
        max_uses: 3,
        invocations: inv,
        created_at: 0,
        valid_for: 0,
    };
    let mut store = LinkStore::from_links(
        &config(),
        vec![row("a", "https://old.org", 0), row("b", "https://b.org", 2), row("a", "https://new.org", 1)],
    );
    assert_eq!(store.len(), 2);
    let a = store.get_at("a", 5).unwrap();
    assert_eq!(a.redirect_to, "https://new.org");
    assert_eq!(a.invocations, 2);
    assert!(store.get_at("b", 5).is_some());
    assert!(store.get_at("b", 6).is_none());
    let mut saved = store.links();
    saved.sort_by(|x, y| x.id.cmp(&y.id));
    assert_eq!(saved.len(), 2);
    assert_eq!((saved[0].id.as_str(), saved[0].invocations), ("a", 2));
    assert_eq!((saved[1].id.as_str(), saved[1].invocations), ("b", 4));
    let again = LinkStore::from_links(&config(), saved);
    assert_eq!(again.len(), 2);
}

#[test]
fn put_link_replaces_by_id() {
    let mut store = LinkStore::new(&config());
    store.create_link_with_config_at(custom("https://a.org", "a", 0, 0), 0).unwrap();
    let mut l = store.links().pop().unwrap();
    l.redirect_to = "https://z.org".to_owned();
    store.put_link(l);
    assert_eq!(store.len(), 1);
    assert_eq!(store.get_at("a", 1).unwrap().redirect_to, "https://z.org");
}
