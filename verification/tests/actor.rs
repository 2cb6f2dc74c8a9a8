use ticket_actor::QUEUE_CAPACITY;
use ticket_actor::database::DbError;
use ticket_actor::database::Reply;
use ticket_actor::database::StepOutcome;
use ticket_actor::database::database;
use ticket_actor::mailbox::SubmitError;
use ticket_actor::store::Store;
use ticket_actor::ticket::DefId;
use ticket_actor::ticket::TicketId;
use ticket_actor::ticket::UserTicket;
use ticket_actor::user::User;
use ticket_actor::user::UserId;

fn empty_store() -> Store {
    Store {
        users: Vec::new(),
        tickets: Vec::new(),
        defs: Vec::new(),
        next_user_id: 1,
        next_ticket_id: 1,
    }
}

fn alice() -> User {
    User { id: UserId(1), username: "alice".to_string(), password_hash: "hash".to_string() }
}

#[test]
fn end_to_end_alice() {
    let mut store = empty_store();
    store.users.push(alice());
    store.next_user_id = 2;
    let mut db = database(store);

    let s1 = db.get_user("alice".to_string()).unwrap();
    db.run();
    match db.take_reply(s1) {
        Some(Reply::User(Some(u))) => {
            assert_eq!(u.id, UserId(1));
            assert_eq!(u.username, "alice");
        }
        other => panic!("expected alice, got {:?}", other),
    }

    let s2 = db.get_user("bob".to_string()).unwrap();
    db.run();
    match db.take_reply(s2) {
        Some(Reply::User(None)) => {}
        other => panic!("expected absent, got {:?}", other),
    }

    let s3 = db.insert_tickets_for(UserId(1), DefId(7), "X".to_string()).unwrap();
    let s4 = db.get_user_tickets(UserId(1)).unwrap();
    db.run();
    assert!(matches!(db.take_reply(s3), Some(Reply::Done)));
    match db.take_reply(s4) {
        Some(Reply::Tickets(ts)) => {
            assert_eq!(ts.len(), 1);
            assert_eq!(ts[0].def, DefId(7));
            assert_eq!(ts[0].user, UserId(1));
            assert_eq!(ts[0].qr, "X");
            assert_eq!(ts[0].usages, 0);
        }
        other => panic!("expected one ticket, got {:?}", other),
    }

    db.close().unwrap();
    db.run();
}

#[test]
fn effects_apply_in_submission_order() {
    let mut store = empty_store();
    store.tickets.push(UserTicket {
        id: TicketId(1),
        def: DefId(1),
        user: UserId(1),
        qr: "q".to_string(),
        usages: 0,
    });
    let mut db = database(store);

    let s1 = db.update_ticket_usages(TicketId(1), 5).unwrap();
    let s2 = db.update_ticket_usages(TicketId(1), 2).unwrap();
    let s3 = db.get_ticket(TicketId(1)).unwrap();
    db.run();
    assert!(matches!(db.take_reply(s1), Some(Reply::Done)));
    assert!(matches!(db.take_reply(s2), Some(Reply::Done)));
    match db.take_reply(s3) {
        Some(Reply::Ticket(Some(t))) => assert_eq!(t.usages, 2),
        other => panic!("expected the later update to win, got {:?}", other),
    }
}

#[test]
fn one_operation_per_turn() {
    let mut db = database(empty_store());
    let s1 = db.get_user("a".to_string()).unwrap();
    let s2 = db.get_user("b".to_string()).unwrap();

    assert_eq!(db.step(), StepOutcome::Executed);
    assert!(db.take_reply(s1).is_some());
    assert!(db.take_reply(s2).is_none());

    assert_eq!(db.step(), StepOutcome::Executed);
    assert!(db.take_reply(s2).is_some());

    assert_eq!(db.step(), StepOutcome::Idle);
}

#[test]
fn exactly_one_reply_per_operation() {
    let mut db = database(empty_store());
    let slot = db.get_user("alice".to_string()).unwrap();
    assert!(db.take_reply(slot).is_none(), "no reply before the actor ran");
    db.run();
    assert!(db.take_reply(slot).is_some(), "one reply after the run");
    assert!(db.take_reply(slot).is_none(), "a reply is collected only once");
}

#[test]
fn cardinality_zero_one_two() {
    // zero rows: absent
    let mut db = database(empty_store());
    let slot = db.get_user("u".to_string()).unwrap();
    db.run();
    assert!(matches!(db.take_reply(slot), Some(Reply::User(None))));

    // one row: present
    let mut store = empty_store();
    store.users.push(User {
        id: UserId(1),
        username: "u".to_string(),
        password_hash: "h".to_string(),
    });
    let mut db = database(store);
    let slot = db.get_user("u".to_string()).unwrap();
    db.run();
    assert!(matches!(db.take_reply(slot), Some(Reply::User(Some(_)))));

    // two rows: the uniqueness invariant is broken, fatal for the request
    let mut store = empty_store();
    store.users.push(User {
        id: UserId(1),
        username: "u".to_string(),
        password_hash: "h1".to_string(),
    });
    store.users.push(User {
        id: UserId(2),
        username: "u".to_string(),
        password_hash: "h2".to_string(),
    });
    let mut db = database(store);
    let slot = db.get_user("u".to_string()).unwrap();
    db.run();
    assert!(matches!(db.take_reply(slot), Some(Reply::Fatal(DbError::TooManyRows))));
}

#[test]
fn fatal_request_does_not_stop_the_loop() {
    let mut store = empty_store();
    store.users.push(User {
        id: UserId(1),
        username: "u".to_string(),
        password_hash: "h1".to_string(),
    });
    store.users.push(User {
        id: UserId(2),
        username: "u".to_string(),
        password_hash: "h2".to_string(),
    });
    let mut db = database(store);
    let bad = db.get_user("u".to_string()).unwrap();
    let good = db.get_user("nobody".to_string()).unwrap();
    db.run();
    assert!(matches!(db.take_reply(bad), Some(Reply::Fatal(DbError::TooManyRows))));
    assert!(
        matches!(db.take_reply(good), Some(Reply::User(None))),
        "commands after a fatal request are still served"
    );
}

#[test]
fn backpressure_full_queue_suspends_then_succeeds() {
    let mut db = database(empty_store());
    let mut slots = Vec::new();
    for _ in 0..QUEUE_CAPACITY {
        slots.push(db.get_user("u".to_string()).unwrap());
    }
    // the queue is full: the submission is turned away, nothing is dropped
    assert_eq!(db.get_user("v".to_string()), Err(SubmitError::Full));

    // one actor turn makes room; the retry goes through
    assert_eq!(db.step(), StepOutcome::Executed);
    let late = db.get_user("v".to_string()).unwrap();

    db.run();
    for slot in slots {
        assert!(db.take_reply(slot).is_some());
    }
    assert!(db.take_reply(late).is_some());
}

#[test]
fn close_needs_queue_room_too() {
    let mut db = database(empty_store());
    for _ in 0..QUEUE_CAPACITY {
        db.get_user("u".to_string()).unwrap();
    }
    assert_eq!(db.close(), Err(SubmitError::Full));
    assert_eq!(db.step(), StepOutcome::Executed);
    assert_eq!(db.close(), Ok(()));
}

#[test]
fn shutdown_rejects_later_submissions() {
    let mut db = database(empty_store());
    let before = db.get_user("early".to_string()).unwrap();
    assert_eq!(db.close(), Ok(()));

    // fail fast, no hang and no silent execution
    assert_eq!(db.get_user("late".to_string()), Err(SubmitError::Closed));
    assert_eq!(db.close(), Err(SubmitError::Closed));

    db.run();
    assert!(db.take_reply(before).is_some(), "work queued before close still ran");
    assert_eq!(db.step(), StepOutcome::Stopped, "the loop is stopped for good");
    assert_eq!(db.get_user("later".to_string()), Err(SubmitError::Closed));
}

#[test]
fn inserted_users_get_fresh_ids() {
    let mut db = database(empty_store());
    let s1 = db.insert_user("a".to_string(), "ha".to_string()).unwrap();
    let s2 = db.insert_user("b".to_string(), "hb".to_string()).unwrap();
    let s3 = db.get_user("b".to_string()).unwrap();
    db.run();
    assert!(matches!(db.take_reply(s1), Some(Reply::Done)));
    assert!(matches!(db.take_reply(s2), Some(Reply::Done)));
    match db.take_reply(s3) {
        Some(Reply::User(Some(u))) => {
            assert_eq!(u.id, UserId(2));
            assert_eq!(u.password_hash, "hb");
        }
        other => panic!("expected b, got {:?}", other),
    }
}

#[test]
fn get_ticket_defs_returns_stored_order() {
    let mut store = empty_store();
    for (id, title) in [(3u64, "three"), (1, "one"), (2, "two")] {
        store.defs.push(ticket_actor::ticket::TicketDef {
            id: DefId(id),
            title: title.to_string(),
            price: 100,
            start: "1970-01-01T00:00:00Z".to_string(),
            expiry: "1970-01-02T00:00:00Z".to_string(),
        });
    }
    let mut db = database(store);
    let slot = db.get_ticket_defs().unwrap();
    db.run();
    match db.take_reply(slot) {
        Some(Reply::Defs(defs)) => {
            assert_eq!(defs.len(), 3);
            assert_eq!(defs[0].id, DefId(3));
            assert_eq!(defs[1].id, DefId(1));
            assert_eq!(defs[2].id, DefId(2));
        }
        other => panic!("expected defs, got {:?}", other),
    }
}

#[test]
fn queue_capacity_is_sixteen() {
    assert_eq!(QUEUE_CAPACITY, 16);
}
