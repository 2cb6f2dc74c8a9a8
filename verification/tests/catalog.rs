use ticket_actor::database::Binding;
use ticket_actor::database::Operation;
use ticket_actor::database::ResultShape;
use ticket_actor::ticket::DefId;
use ticket_actor::ticket::GetAllDefinitions;
use ticket_actor::ticket::GetAllFromUser;
use ticket_actor::ticket::GetTicket;
use ticket_actor::ticket::Insert;
use ticket_actor::ticket::TicketId;
use ticket_actor::ticket::UpdateUsage;
use ticket_actor::user::Get;
use ticket_actor::user::UserId;

#[test]
fn statements_match_the_dispatch_table() {
    let get_user = Operation::GetUser { username: "a".to_string() };
    assert_eq!(get_user.statement(), "SELECT * FROM users WHERE username = ?1");
    let insert_user = Operation::InsertUser { username: "a".to_string(), password: "h".to_string() };
    assert_eq!(insert_user.statement(), "INSERT INTO users (username, password_hash) VALUES (?1, ?2)");
    let tickets = Operation::GetUserTickets { id: UserId(1) };
    assert_eq!(tickets.statement(), "SELECT * FROM user_tickets WHERE user = ?1");
    let ticket = Operation::GetTicket { id: TicketId(1) };
    assert_eq!(ticket.statement(), "SELECT * from user_tickets WHERE id = ?1");
    let update = Operation::UpdateTicketUsages { id: TicketId(1), usages: 3 };
    assert_eq!(update.statement(), "UPDATE user_tickets SET usages = ?1 WHERE id = ?2");
    let insert = Operation::InsertTicket { def: DefId(7), id: UserId(1), qr: "X".to_string() };
    assert_eq!(insert.statement(), "INSERT INTO user_tickets (user, def, qr) VALUES (?1, ?2, ?3)");
    assert_eq!(Operation::GetTicketDefs.statement(), "SELECT * FROM ticket_defs");
}

#[test]
fn bindings_in_declared_order() {
    let update = Operation::UpdateTicketUsages { id: TicketId(9), usages: 3 };
    let b = update.bindings();
    assert_eq!(b.len(), 2);
    assert!(matches!(b[0], Binding::Int(3)));
    assert!(matches!(b[1], Binding::Int(9)));

    let insert = Operation::InsertTicket { def: DefId(7), id: UserId(1), qr: "X".to_string() };
    let b = insert.bindings();
    assert_eq!(b.len(), 3);
    assert!(matches!(b[0], Binding::Int(1)));
    assert!(matches!(b[1], Binding::Int(7)));
    match &b[2] {
        Binding::Text(t) => assert_eq!(t, "X"),
        other => panic!("expected text binding, got {:?}", other),
    }

    assert_eq!(Operation::GetTicketDefs.bindings().len(), 0);
}

#[test]
fn declared_result_shapes() {
    let get_user = Operation::GetUser { username: "a".to_string() };
    assert_eq!(get_user.shape(), ResultShape::OptionalOne);
    let insert_user = Operation::InsertUser { username: "a".to_string(), password: "h".to_string() };
    assert_eq!(insert_user.shape(), ResultShape::Effect);
    let tickets = Operation::GetUserTickets { id: UserId(1) };
    assert_eq!(tickets.shape(), ResultShape::Many);
    let ticket = Operation::GetTicket { id: TicketId(1) };
    assert_eq!(ticket.shape(), ResultShape::OptionalOne);
    assert_eq!(Operation::GetTicketDefs.shape(), ResultShape::Many);
}

#[test]
fn open_set_queries_agree_with_the_closed_set() {
    let q = GetTicket { id: TicketId(4) };
    assert_eq!(q.query(), Operation::GetTicket { id: TicketId(4) }.statement());
    assert!(matches!(q.into_operation(), Operation::GetTicket { id: TicketId(4) }));

    let q = GetAllFromUser { id: UserId(2) };
    assert_eq!(q.query(), Operation::GetUserTickets { id: UserId(2) }.statement());
    let b = q.bindings();
    assert!(matches!(b[0], Binding::Int(2)));
    assert!(matches!(q.into_operation(), Operation::GetUserTickets { id: UserId(2) }));

    let q = UpdateUsage { id: TicketId(4), usages: 6 };
    let b = q.bindings();
    assert!(matches!(b[0], Binding::Int(6)));
    assert!(matches!(b[1], Binding::Int(4)));
    assert!(matches!(
        q.into_operation(),
        Operation::UpdateTicketUsages { id: TicketId(4), usages: 6 }
    ));

    let q = Insert { user: UserId(1), def: DefId(7), qr: "X".to_string() };
    assert_eq!(
        q.query(),
        "INSERT INTO user_tickets (user, def, qr) VALUES (?1, ?2, ?3)"
    );
    match q.into_operation() {
        Operation::InsertTicket { def, id, qr } => {
            assert_eq!(def, DefId(7));
            assert_eq!(id, UserId(1));
            assert_eq!(qr, "X");
        }
        other => panic!("expected an insert, got {:?}", other),
    }

    assert_eq!(GetAllDefinitions.query(), Operation::GetTicketDefs.statement());
    assert_eq!(GetAllDefinitions.bindings().len(), 0);

    let q = Get { username: "alice".to_string() };
    assert_eq!(q.query(), "SELECT * FROM users WHERE username = ?1");
    match &q.bindings()[0] {
        Binding::Text(t) => assert_eq!(t, "alice"),
        other => panic!("expected text binding, got {:?}", other),
    }

    let q = ticket_actor::user::Insert { username: "alice".to_string(), password: "h".to_string() };
    assert_eq!(q.query(), "INSERT INTO users (username, password_hash) VALUES (?1, ?2)");
    assert_eq!(q.bindings().len(), 2);
}
