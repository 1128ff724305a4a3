use shortlink::codegen::{is_url_safe, CODE_LEN};
use shortlink::errors::LinkError;
use shortlink::service::RedirectService;

#[test]
fn create_then_resolve_returns_same_url() {
    let mut svc = RedirectService::new();
    let link = svc
        .create_link("https://example.com/some/page", Some(String::from("promo")))
        .expect("create with a fresh code must succeed");
    assert_eq!(link.code, "promo");
    assert_eq!(link.url, "https://example.com/some/page");
    assert_eq!(link.link_id, 1);

    let target = svc.follow_link("promo").expect("known code must resolve");
    assert_eq!(target, "https://example.com/some/page");
}

#[test]
fn example_roundtrip_with_generated_code() {
    let mut svc = RedirectService::new();
    let link = svc
        .create_link("https://example.com", None)
        .expect("create with a generated code must succeed on an empty store");
    assert_eq!(link.code.chars().count(), CODE_LEN);
    assert_eq!(link.url, "https://example.com");

    let meta_before = svc.get_link_meta(&link.code).expect("meta of a known code");
    assert_eq!(meta_before.visits, 0);

    let target = svc.follow_link(&link.code).expect("the fresh code must resolve");
    assert_eq!(target, "https://example.com");

    let meta_after = svc.get_link_meta(&link.code).expect("meta of a known code");
    assert_eq!(meta_after.visits, 1);
    assert_eq!(meta_after.url, "https://example.com");
    assert_eq!(meta_after.code, link.code);
}

#[test]
fn duplicate_code_yields_conflict() {
    let mut svc = RedirectService::new();
    svc.create_link("https://first.example", Some(String::from("taken")))
        .expect("first create must succeed");
    let second = svc.create_link("https://second.example", Some(String::from("taken")));
    match second {
        Err(LinkError::Conflict) => {}
        other => panic!("expected Conflict, got {:?}", other),
    }
    // the conflicting create wrote nothing: the first link still resolves
    let target = svc.follow_link("taken").expect("first link must survive");
    assert_eq!(target, "https://first.example");
}

#[test]
fn generated_code_has_fixed_length_and_url_safe_alphabet() {
    let mut svc = RedirectService::new();
    for i in 0..5u32 {
        let url = format!("https://example.com/{}", i);
        let link = svc.create_link(&url, None).expect("create must succeed");
        assert_eq!(link.code.chars().count(), 21);
        assert!(is_url_safe(&link.code), "code {:?} holds a character outside A-Za-z0-9_-", link.code);
    }
}

#[test]
fn unknown_code_yields_not_found_not_a_storage_error() {
    let mut svc = RedirectService::new();
    match svc.follow_link("missing") {
        Err(LinkError::NotFound) => {}
        other => panic!("expected NotFound, got {:?}", other),
    }
    match svc.get_link_meta("missing") {
        Err(LinkError::NotFound) => {}
        other => panic!("expected NotFound, got {:?}", other),
    }
}

#[test]
fn visits_accumulate_and_never_decrease() {
    let mut svc = RedirectService::new();
    let link = svc
        .create_link("https://example.com/n", Some(String::from("n")))
        .expect("create must succeed");
    let n = 4u64;
    for _ in 0..n {
        svc.follow_link("n").expect("resolve must succeed");
    }
    let meta = svc.get_link_meta("n").expect("meta must succeed");
    assert_eq!(meta.visits, n);
    assert_eq!(svc.links_visited_total(), n);

    // more redirects can only raise the count
    svc.follow_link("n").expect("resolve must succeed");
    let later = svc.get_link_meta("n").expect("meta must succeed");
    assert!(later.visits >= meta.visits);
    assert_eq!(later.visits, n + 1);
    let _ = link;
}

#[test]
fn visit_recording_outage_does_not_block_redirect() {
    let mut svc = RedirectService::new();
    svc.create_link("https://example.com/out", Some(String::from("out")))
        .expect("create must succeed");

    // the recorder is down for this one call: the redirect is served anyway
    svc.set_visits_available(false);
    let target = svc.follow_link("out").expect("redirect must not be blocked");
    assert_eq!(target, "https://example.com/out");

    // while the recorder is down, meta degrades to a zero count
    let degraded = svc.get_link_meta("out").expect("meta must not fail on count outage");
    assert_eq!(degraded.visits, 0);

    // once repaired, only successfully recorded visits are counted
    svc.set_visits_available(true);
    let target = svc.follow_link("out").expect("resolve must succeed");
    assert_eq!(target, "https://example.com/out");
    let meta = svc.get_link_meta("out").expect("meta must succeed");
    assert_eq!(meta.visits, 1);
}

#[test]
fn store_outage_surfaces_storage_unavailable() {
    let mut svc = RedirectService::new();
    svc.create_link("https://example.com/up", Some(String::from("up")))
        .expect("create must succeed");
    svc.set_store_available(false);
    match svc.follow_link("up") {
        Err(LinkError::StorageUnavailable) => {}
        other => panic!("expected StorageUnavailable, got {:?}", other),
    }
    match svc.create_link("https://example.com/other", Some(String::from("other"))) {
        Err(LinkError::StorageUnavailable) => {}
        other => panic!("expected StorageUnavailable, got {:?}", other),
    }
    match svc.get_link_meta("up") {
        Err(LinkError::StorageUnavailable) => {}
        other => panic!("expected StorageUnavailable, got {:?}", other),
    }
    // a repaired store serves the link again
    svc.set_store_available(true);
    assert_eq!(svc.follow_link("up").expect("resolve"), "https://example.com/up");
}

#[test]
fn creation_counters_tell_supplied_from_generated() {
    let mut svc = RedirectService::new();
    assert_eq!(svc.created_with_code_total(), 0);
    assert_eq!(svc.created_generated_total(), 0);
    svc.create_link("https://example.com/a", Some(String::from("a")))
        .expect("create must succeed");
    svc.create_link("https://example.com/b", None).expect("create must succeed");
    svc.create_link("https://example.com/c", None).expect("create must succeed");
    assert_eq!(svc.created_with_code_total(), 1);
    assert_eq!(svc.created_generated_total(), 2);
}
