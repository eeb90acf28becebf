use filesend::service::{all_options, rocket};
use filesend::store::{ReplyStatus, SessionStore};
use std::collections::HashSet;

#[test]
fn round_trip() {
    let mut svc = rocket();
    let id = svc.create_offer("offer-blob".to_string());
    let ack = svc.send_reply(id, "answer-blob".to_string());
    assert_eq!(ack, Some("offer-blob".to_string()));
    match svc.get_reply(id) {
        ReplyStatus::Reply(a) => assert_eq!(a, "answer-blob"),
        _ => panic!("expected the answer to come back"),
    }
}

#[test]
fn unknown_id_rejected() {
    let mut svc = rocket();
    let known = svc.create_offer("o".to_string());
    let unknown = known.wrapping_add(1);
    assert!(svc.send_reply(unknown, "a".to_string()).is_none());
    assert!(matches!(svc.get_reply(unknown), ReplyStatus::NotFound));
}

#[test]
fn unknown_id_rejected_on_empty_store() {
    let mut svc = rocket();
    assert!(svc.send_reply(42, "a".to_string()).is_none());
    assert!(matches!(svc.get_reply(42), ReplyStatus::NotFound));
}

#[test]
fn pending_vs_not_found() {
    let mut svc = rocket();
    let id = svc.create_offer("o".to_string());
    assert!(matches!(svc.get_reply(id), ReplyStatus::Pending));
    assert!(matches!(svc.get_reply(id.wrapping_add(1)), ReplyStatus::NotFound));
}

#[test]
fn ten_thousand_ids_distinct() {
    let mut svc = rocket();
    let mut seen: HashSet<u128> = HashSet::new();
    for n in 0..10_000u32 {
        let id = svc.create_offer(format!("offer {}", n));
        assert!(seen.insert(id), "identifier handed out twice");
    }
    assert_eq!(seen.len(), 10_000);
}

#[test]
fn many_offers_each_retrievable() {
    // The store itself is single-threaded here; this exercises the
    // "no lost updates" half of concurrent safety sequentially: many
    // publications, each independently retrievable afterwards.
    let mut svc = rocket();
    let mut ids = Vec::new();
    for n in 0..100u32 {
        ids.push((svc.create_offer(format!("offer {}", n)), format!("offer {}", n)));
    }
    for (id, text) in &ids {
        assert_eq!(svc.get_offer(*id), Some(text.clone()));
    }
}

#[test]
fn writes_to_one_session_leave_others_alone() {
    let mut svc = rocket();
    let a = svc.create_offer("offer a".to_string());
    let b = svc.create_offer("offer b".to_string());
    assert!(svc.send_reply(b, "answer b".to_string()).is_some());
    assert!(matches!(svc.get_reply(a), ReplyStatus::Pending));
    assert_eq!(svc.get_offer(a), Some("offer a".to_string()));
}

#[test]
fn answer_overwrite_last_write_wins() {
    let mut svc = rocket();
    let id = svc.create_offer("o".to_string());
    assert_eq!(svc.send_reply(id, "first".to_string()), Some("o".to_string()));
    assert_eq!(svc.send_reply(id, "second".to_string()), Some("o".to_string()));
    match svc.get_reply(id) {
        ReplyStatus::Reply(a) => assert_eq!(a, "second"),
        _ => panic!("expected the second answer"),
    }
}

#[test]
fn store_operations_direct() {
    let mut store = SessionStore::new();
    assert!(store.get_offer(1).is_none());
    assert!(matches!(store.get_answer(1), ReplyStatus::NotFound));
    let id = store.insert_offer("sdp text".to_string());
    assert_eq!(store.get_offer(id), Some("sdp text".to_string()));
    assert!(matches!(store.get_answer(id), ReplyStatus::Pending));
    assert_eq!(store.insert_answer(id, "reply".to_string()), Some("sdp text".to_string()));
    match store.get_answer(id) {
        ReplyStatus::Reply(a) => assert_eq!(a, "reply"),
        _ => panic!("expected the recorded answer"),
    }
}

#[test]
fn preflight_body_empty() {
    assert_eq!(all_options(), "");
}
