use ticket_actor::ticket::DefId;
use ticket_actor::ticket::ExpiryStatus;
use ticket_actor::ticket::Ticket;
use ticket_actor::ticket::TicketDef;
use ticket_actor::ticket::TicketId;
use ticket_actor::ticket::UsageError;
use ticket_actor::ticket::UserTicket;
use ticket_actor::ticket::decrement_usage;
use ticket_actor::ticket::expiry_status;
use ticket_actor::ticket::find_def;
use ticket_actor::ticket::increment_usage;
use ticket_actor::ticket::owned_ticket;
use ticket_actor::ticket::tickets_from_defs;
use ticket_actor::ticket::try_tickets_from_defs;
use ticket_actor::ticket::unclaimed_defs;
use ticket_actor::user::UserId;

fn def(id: u64, title: &str) -> TicketDef {
    TicketDef {
        id: DefId(id),
        title: title.to_string(),
        price: 100,
        start: "1970-01-01T00:00:00Z".to_string(),
        expiry: "1970-01-02T00:00:00Z".to_string(),
    }
}

fn user_ticket(id: u64, def_id: u64, user: u64, usages: u64) -> UserTicket {
    UserTicket {
        id: TicketId(id),
        def: DefId(def_id),
        user: UserId(user),
        qr: "qr".to_string(),
        usages,
    }
}

#[test]
fn combine_parses_the_dates() {
    let t = Ticket::try_combine(user_ticket(1, 7, 1, 3), &def(7, "day")).unwrap();
    assert_eq!(t.id, TicketId(1));
    assert_eq!(t.def, DefId(7));
    assert_eq!(t.title, "day");
    assert_eq!(t.price, 100);
    assert_eq!(t.start, 0, "epoch start parses to timestamp zero");
    assert_eq!(t.expiry, 86400, "one day later parses to 86400 seconds");
    assert_eq!(t.qr, "qr");
    assert_eq!(t.usages, 3);
}

#[test]
fn combine_with_offset_normalizes_to_utc() {
    let mut d = def(7, "day");
    d.start = "1970-01-01T02:00:00+02:00".to_string();
    let t = Ticket::try_combine(user_ticket(1, 7, 1, 0), &d).unwrap();
    assert_eq!(t.start, 0);
}

#[test]
fn combine_rejects_the_wrong_definition() {
    assert!(Ticket::try_combine(user_ticket(1, 7, 1, 0), &def(8, "other")).is_none());
}

#[test]
fn combine_rejects_unparsable_dates() {
    let mut d = def(7, "day");
    d.expiry = "not a date".to_string();
    assert!(Ticket::try_combine(user_ticket(1, 7, 1, 0), &d).is_none());
}

#[test]
fn join_keeps_ticket_order() {
    let defs = vec![def(1, "one"), def(2, "two")];
    let tickets = vec![user_ticket(10, 2, 1, 0), user_ticket(11, 1, 1, 5)];
    let joined = tickets_from_defs(tickets, &defs);
    assert_eq!(joined.len(), 2);
    assert_eq!(joined[0].id, TicketId(10));
    assert_eq!(joined[0].title, "two");
    assert_eq!(joined[1].id, TicketId(11));
    assert_eq!(joined[1].title, "one");
    assert_eq!(joined[1].usages, 5);
}

#[test]
fn join_reports_a_missing_definition() {
    let defs = vec![def(1, "one")];
    let tickets = vec![user_ticket(10, 2, 1, 0)];
    assert!(try_tickets_from_defs(tickets, &defs).is_none());
}

#[test]
fn find_def_takes_the_first_match() {
    let defs = vec![def(1, "first"), def(2, "second"), def(1, "duplicate")];
    assert_eq!(find_def(&defs, DefId(1)), Some(0));
    assert_eq!(find_def(&defs, DefId(2)), Some(1));
    assert_eq!(find_def(&defs, DefId(9)), None);
}

#[test]
fn unclaimed_defs_filters_claimed_ones() {
    let defs = vec![def(1, "one"), def(2, "two"), def(3, "three")];
    let owned = vec![
        Ticket::try_combine(user_ticket(10, 2, 1, 0), &def(2, "two")).unwrap(),
    ];
    let left = unclaimed_defs(&defs, &owned);
    assert_eq!(left.len(), 2);
    assert_eq!(left[0].id, DefId(1));
    assert_eq!(left[1].id, DefId(3));

    let none_owned: Vec<Ticket> = Vec::new();
    assert_eq!(unclaimed_defs(&defs, &none_owned).len(), 3);
}

#[test]
fn expiry_statuses() {
    assert_eq!(expiry_status(100, 100), ExpiryStatus::Expired);
    assert_eq!(expiry_status(101, 100), ExpiryStatus::Expired);
    // 1 day, 2 hours and a few seconds left
    let diff = 86400 + 7200 + 30;
    assert_eq!(expiry_status(1000, 1000 + diff), ExpiryStatus::Imminent { days: 1, hours: 2 });
    // exactly the two-week boundary still counts down
    assert_eq!(
        expiry_status(0, 1209600),
        ExpiryStatus::Imminent { days: 14, hours: 0 }
    );
    assert_eq!(expiry_status(0, 1209601), ExpiryStatus::Distant);
}

#[test]
fn usage_increments_and_saturates() {
    let caller = UserId(1);
    assert!(matches!(increment_usage(None, caller), Err(UsageError::UnknownTicket)));
    assert!(matches!(
        increment_usage(Some(user_ticket(1, 7, 2, 0)), caller),
        Err(UsageError::NotOwner)
    ));

    let step = increment_usage(Some(user_ticket(1, 7, 1, 4)), caller).unwrap();
    assert_eq!(step.usages, 5);
    let update = step.update.unwrap();
    assert_eq!(update.id, TicketId(1));
    assert_eq!(update.usages, 5);

    let step = increment_usage(Some(user_ticket(1, 7, 1, u64::MAX)), caller).unwrap();
    assert_eq!(step.usages, u64::MAX);
    assert!(step.update.is_none(), "a saturated count is not written back");
}

#[test]
fn usage_decrements_and_stops_at_zero() {
    let caller = UserId(1);
    assert!(matches!(decrement_usage(None, caller), Err(UsageError::UnknownTicket)));
    assert!(matches!(
        decrement_usage(Some(user_ticket(1, 7, 2, 3)), caller),
        Err(UsageError::NotOwner)
    ));

    let step = decrement_usage(Some(user_ticket(1, 7, 1, 3)), caller).unwrap();
    assert_eq!(step.usages, 2);
    assert_eq!(step.update.unwrap().usages, 2);

    let step = decrement_usage(Some(user_ticket(1, 7, 1, 0)), caller).unwrap();
    assert_eq!(step.usages, 0);
    assert!(step.update.is_none(), "zero is not decremented nor written back");
}

#[test]
fn owned_ticket_checks_the_owner() {
    let caller = UserId(1);
    assert!(matches!(owned_ticket(None, caller), Err(UsageError::UnknownTicket)));
    assert!(matches!(
        owned_ticket(Some(user_ticket(1, 7, 9, 0)), caller),
        Err(UsageError::NotOwner)
    ));
    let t = owned_ticket(Some(user_ticket(1, 7, 1, 0)), caller).unwrap();
    assert_eq!(t.id, TicketId(1));
}
