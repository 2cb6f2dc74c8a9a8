use ticket_actor::database::StepOutcome;
use ticket_actor::kv::KvStore;
use ticket_actor::mailbox::SubmitError;
use ticket_actor::sessions::SessionReply;
use ticket_actor::sessions::sessions;
use ticket_actor::user::User;
use ticket_actor::user::UserId;

fn user(id: u64, name: &str) -> User {
    User { id: UserId(id), username: name.to_string(), password_hash: "h".to_string() }
}

fn empty_kv() -> KvStore {
    KvStore { entries: Vec::new() }
}

#[test]
fn session_roundtrip() {
    let mut s = sessions(empty_kv());

    let put = s.put("alice".to_string(), user(1, "alice")).unwrap();
    let get = s.get("alice".to_string()).unwrap();
    let miss = s.get("bob".to_string()).unwrap();
    s.run();

    assert!(matches!(s.take_reply(put), Some(SessionReply::Done)));
    match s.take_reply(get) {
        Some(SessionReply::User(Some(u))) => assert_eq!(u.id, UserId(1)),
        other => panic!("expected alice's session, got {:?}", other),
    }
    assert!(matches!(s.take_reply(miss), Some(SessionReply::User(None))));
}

#[test]
fn session_overwrite_and_remove() {
    let mut s = sessions(empty_kv());

    let p1 = s.put("k".to_string(), user(1, "one")).unwrap();
    let p2 = s.put("k".to_string(), user(2, "two")).unwrap();
    let g1 = s.get("k".to_string()).unwrap();
    let rm = s.remove("k".to_string()).unwrap();
    let g2 = s.get("k".to_string()).unwrap();
    s.run();

    assert!(matches!(s.take_reply(p1), Some(SessionReply::Done)));
    assert!(matches!(s.take_reply(p2), Some(SessionReply::Done)));
    match s.take_reply(g1) {
        Some(SessionReply::User(Some(u))) => {
            assert_eq!(u.id, UserId(2), "the later put under the same key wins");
        }
        other => panic!("expected a session, got {:?}", other),
    }
    assert!(matches!(s.take_reply(rm), Some(SessionReply::Done)));
    assert!(matches!(s.take_reply(g2), Some(SessionReply::User(None))));
}

#[test]
fn removing_a_missing_key_is_a_quiet_no_op() {
    let mut s = sessions(empty_kv());
    let rm = s.remove("ghost".to_string()).unwrap();
    s.run();
    assert!(matches!(s.take_reply(rm), Some(SessionReply::Done)));
}

#[test]
fn session_shutdown_fails_fast() {
    let mut s = sessions(empty_kv());
    let before = s.get("k".to_string()).unwrap();
    assert_eq!(s.close(), Ok(()));
    assert_eq!(s.get("k".to_string()), Err(SubmitError::Closed));
    assert_eq!(s.put("k".to_string(), user(1, "one")), Err(SubmitError::Closed));
    assert_eq!(s.remove("k".to_string()), Err(SubmitError::Closed));
    s.run();
    assert!(s.take_reply(before).is_some());
    assert_eq!(s.step(), StepOutcome::Stopped);
}

#[test]
fn kv_store_direct_semantics() {
    let mut kv = empty_kv();
    assert!(kv.get(&"a".to_string()).is_none());

    kv.put("a".to_string(), user(1, "one"));
    kv.put("b".to_string(), user(2, "two"));
    assert_eq!(kv.get(&"a".to_string()).unwrap().id, UserId(1));
    assert_eq!(kv.get(&"b".to_string()).unwrap().id, UserId(2));

    kv.put("a".to_string(), user(3, "three"));
    assert_eq!(kv.get(&"a".to_string()).unwrap().id, UserId(3));
    assert_eq!(kv.entries.len(), 2, "overwriting does not grow the store");

    kv.remove(&"a".to_string());
    assert!(kv.get(&"a".to_string()).is_none());
    assert_eq!(kv.get(&"b".to_string()).unwrap().id, UserId(2));
}

#[test]
fn session_backpressure() {
    let mut s = sessions(empty_kv());
    for _ in 0..ticket_actor::QUEUE_CAPACITY {
        s.get("k".to_string()).unwrap();
    }
    assert_eq!(s.get("k".to_string()), Err(SubmitError::Full));
    assert_eq!(s.step(), StepOutcome::Executed);
    assert!(s.get("k".to_string()).is_ok());
    s.run();
}
