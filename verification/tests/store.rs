use shortlink::errors::{ErrorMessage, LinkError};
use shortlink::link_visit::VisitRecorder;
use shortlink::links::LinkStore;
use shortlink::text::decimal_string;

#[test]
fn ids_are_assigned_sequentially_from_one() {
    let mut store = LinkStore::new();
    let a = store.create("https://a.example", Some(String::from("a"))).expect("create");
    let b = store.create("https://b.example", Some(String::from("b"))).expect("create");
    let c = store.create("https://c.example", None).expect("create");
    assert_eq!(a.link_id, 1);
    assert_eq!(b.link_id, 2);
    assert_eq!(c.link_id, 3);
}

#[test]
fn find_by_id_returns_the_created_record() {
    let mut store = LinkStore::new();
    store.create("https://a.example", Some(String::from("a"))).expect("create");
    store.create("https://b.example", Some(String::from("b"))).expect("create");
    let found = store.find_by_id(2).expect("reads succeed on a reachable store");
    let link = found.expect("id 2 exists");
    assert_eq!(link.code, "b");
    assert_eq!(link.url, "https://b.example");
    assert!(store.find_by_id(3).expect("read").is_none());
    assert!(store.find_by_id(0).expect("read").is_none());
    assert!(store.find_by_id(-7).expect("read").is_none());
}

#[test]
fn find_by_code_is_a_side_effect_free_read() {
    let mut store = LinkStore::new();
    store.create("https://a.example", Some(String::from("abc"))).expect("create");
    for _ in 0..3 {
        let found = store.find_by_code("abc").expect("read").expect("code exists");
        assert_eq!(found.url, "https://a.example");
        assert_eq!(found.link_id, 1);
    }
    assert!(store.find_by_code("zzz").expect("read").is_none());
}

#[test]
fn store_outage_fails_reads_and_writes() {
    let mut store = LinkStore::new();
    store.create("https://a.example", Some(String::from("a"))).expect("create");
    store.set_available(false);
    assert_eq!(store.find_by_code("a").unwrap_err(), LinkError::StorageUnavailable);
    assert_eq!(store.find_by_id(1).unwrap_err(), LinkError::StorageUnavailable);
    match store.create("https://b.example", Some(String::from("b"))) {
        Err(LinkError::StorageUnavailable) => {}
        other => panic!("expected StorageUnavailable, got {:?}", other),
    }
    store.set_available(true);
    assert!(store.find_by_code("a").expect("read").is_some());
}

#[test]
fn visit_count_defaults_to_zero_and_accumulates() {
    let mut rec = VisitRecorder::new();
    assert_eq!(rec.count_for_link_id(7).expect("count"), 0);
    rec.mark_visit(7).expect("record");
    rec.mark_visit(7).expect("record");
    rec.mark_visit(9).expect("record");
    assert_eq!(rec.count_for_link_id(7).expect("count"), 2);
    assert_eq!(rec.count_for_link_id(9).expect("count"), 1);
    assert_eq!(rec.count_for_link_id(8).expect("count"), 0);
}

#[test]
fn recorder_outage_fails_recording_and_counting() {
    let mut rec = VisitRecorder::new();
    rec.mark_visit(1).expect("record");
    rec.set_available(false);
    match rec.mark_visit(1) {
        Err(LinkError::StorageUnavailable) => {}
        other => panic!("expected StorageUnavailable, got {:?}", other),
    }
    assert_eq!(rec.count_for_link_id(1).unwrap_err(), LinkError::StorageUnavailable);
    rec.set_available(true);
    assert_eq!(rec.count_for_link_id(1).expect("count"), 1);
}

#[test]
fn error_kinds_map_to_their_status_codes() {
    assert_eq!(LinkError::NotFound.status(), 404);
    assert_eq!(LinkError::Conflict.status(), 409);
    assert_eq!(LinkError::StorageUnavailable.status(), 500);
}

#[test]
fn error_messages_are_safe_and_fixed() {
    let nf = ErrorMessage::from_error(&LinkError::NotFound);
    assert_eq!(nf.code, 404);
    assert_eq!(nf.msg, "Link not found.");
    let cf = ErrorMessage::from_error(&LinkError::Conflict);
    assert_eq!(cf.code, 409);
    assert_eq!(cf.msg, "Code already in use.");
    let su = ErrorMessage::from_error(&LinkError::StorageUnavailable);
    assert_eq!(su.code, 500);
    assert_eq!(su.msg, "DB error");
    let custom = ErrorMessage::new(404, "Not found");
    assert_eq!(custom.code, 404);
    assert_eq!(custom.msg, "Not found");
}

#[test]
fn decimal_rendering_is_exact() {
    assert_eq!(decimal_string(0), "0");
    assert_eq!(decimal_string(7), "7");
    assert_eq!(decimal_string(42), "42");
    assert_eq!(decimal_string(1000), "1000");
    assert_eq!(decimal_string(u64::MAX), "18446744073709551615");
}
