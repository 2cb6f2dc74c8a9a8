//! The relational store the actor loop drives.
//!
//! The store is confined: only the actor loop ever touches a value of this
//! type.  Executing an operation against it is defined exactly by
//! [`spec_execute`], including the cardinality policy for queries that
//! expect at most one row.

use vstd::prelude::*;

use crate::database::DbError;
use crate::database::Operation;
use crate::database::Reply;
use crate::database::ReplyModel;
use crate::ticket::TicketDef;
use crate::ticket::TicketDefModel;
use crate::ticket::TicketId;
use crate::ticket::UserTicket;
use crate::ticket::UserTicketModel;
use crate::user::User;
use crate::user::UserId;
use crate::user::UserModel;

verus! {

/// The confined backend: the three tables and the id counters the backend
/// assigns from on insert.
#[derive(Debug)]
pub struct Store {
    pub users: Vec<User>,
    pub tickets: Vec<UserTicket>,
    pub defs: Vec<TicketDef>,
    pub next_user_id: u64,
    pub next_ticket_id: u64,
}

/// Mathematical image of a [`Store`].
pub struct StoreModel {
    pub users: Seq<UserModel>,
    pub tickets: Seq<UserTicketModel>,
    pub defs: Seq<TicketDefModel>,
    pub next_user_id: u64,
    pub next_ticket_id: u64,
}

impl View for Store {
    type V = StoreModel;

    open spec fn view(&self) -> StoreModel {
        StoreModel {
            users: self.users.deep_view(),
            tickets: self.tickets.deep_view(),
            defs: self.defs.deep_view(),
            next_user_id: self.next_user_id,
            next_ticket_id: self.next_ticket_id,
        }
    }
}

/// The rows of the users table with the given username, in stored order.
pub open spec fn users_named(users: Seq<UserModel>, name: Seq<char>) -> Seq<UserModel> {
    users.filter(|u: UserModel| u.username == name)
}

/// The purchased tickets owned by the given user, in stored order.
pub open spec fn tickets_of_user(tickets: Seq<UserTicketModel>, id: UserId) -> Seq<
    UserTicketModel,
> {
    tickets.filter(|t: UserTicketModel| t.user == id)
}

/// The purchased tickets with the given ticket id, in stored order.
pub open spec fn tickets_with_id(tickets: Seq<UserTicketModel>, id: TicketId) -> Seq<
    UserTicketModel,
> {
    tickets.filter(|t: UserTicketModel| t.id == id)
}

/// Every row with the given ticket id gets its usage count overwritten;
/// all other rows are untouched and order is kept.
pub open spec fn tickets_updated(
    tickets: Seq<UserTicketModel>,
    id: TicketId,
    usages: u64,
) -> Seq<UserTicketModel> {
    tickets.map(
        |i: int, t: UserTicketModel|
            if t.id == id {
                UserTicketModel { id: t.id, def: t.def, user: t.user, qr: t.qr, usages }
            } else {
                t
            },
    )
}

/// The id counter after the backend assigned one id.  The id space is
/// treated as inexhaustible, so the counter saturates rather than wraps.
pub open spec fn bumped(n: u64) -> u64 {
    if n == u64::MAX {
        n
    } else {
        (n + 1) as u64
    }
}

/// What one operation does to the store, and the one reply it yields.
///
/// Queries that expect at most one row follow the cardinality policy: zero
/// matching rows is an absent result, exactly one yields that row, and more
/// than one is a fatal per-request failure (a uniqueness invariant of the
/// data is broken).  Queries that expect many rows keep the stored order.
pub open spec fn spec_execute(s: StoreModel, op: Operation) -> (StoreModel, ReplyModel) {
    match op {
        Operation::GetUser { username } => {
            let rows = users_named(s.users, username@);
            if rows.len() == 0 {
                (s, ReplyModel::User(None))
            } else if rows.len() == 1 {
                (s, ReplyModel::User(Some(rows[0])))
            } else {
                (s, ReplyModel::Fatal(DbError::TooManyRows))
            }
        },
        Operation::InsertUser { username, password } => {
            let added = UserModel {
                id: UserId(s.next_user_id),
                username: username@,
                password_hash: password@,
            };
            (
                StoreModel {
                    users: s.users.push(added),
                    tickets: s.tickets,
                    defs: s.defs,
                    next_user_id: bumped(s.next_user_id),
                    next_ticket_id: s.next_ticket_id,
                },
                ReplyModel::Done,
            )
        },
        Operation::GetUserTickets { id } => (
            s,
            ReplyModel::Tickets(tickets_of_user(s.tickets, id)),
        ),
        Operation::GetTicket { id } => {
            let rows = tickets_with_id(s.tickets, id);
            if rows.len() == 0 {
                (s, ReplyModel::Ticket(None))
            } else if rows.len() == 1 {
                (s, ReplyModel::Ticket(Some(rows[0])))
            } else {
                (s, ReplyModel::Fatal(DbError::TooManyRows))
            }
        },
        Operation::UpdateTicketUsages { id, usages } => (
            StoreModel {
                users: s.users,
                tickets: tickets_updated(s.tickets, id, usages),
                defs: s.defs,
                next_user_id: s.next_user_id,
                next_ticket_id: s.next_ticket_id,
            },
            ReplyModel::Done,
        ),
        Operation::InsertTicket { def, id, qr } => {
            let added = UserTicketModel {
                id: TicketId(s.next_ticket_id),
                def,
                user: id,
                qr: qr@,
                usages: 0,
            };
            (
                StoreModel {
                    users: s.users,
                    tickets: s.tickets.push(added),
                    defs: s.defs,
                    next_user_id: s.next_user_id,
                    next_ticket_id: bumped(s.next_ticket_id),
                },
                ReplyModel::Done,
            )
        },
        Operation::GetTicketDefs => (s, ReplyModel::Defs(s.defs)),
    }
}

/// Collect the user rows with the given username, in stored order.
fn users_matching(users: &Vec<User>, name: &String) -> (r: Vec<User>)
    ensures
        r.deep_view() == users_named(users.deep_view(), name@),
{
    let ghost users_m = users.deep_view();
    let mut out: Vec<User> = Vec::new();
    proof {
        assert(users_m.take(0) =~= Seq::<UserModel>::empty());
        reveal_with_fuel(Seq::filter, 2);
    }
    let mut i: usize = 0;
    while i < users.len()
        invariant
            0 <= i <= users@.len(),
            users_m == users.deep_view(),
            users_m.len() == users@.len(),
            forall|j: int| 0 <= j < users_m.len() ==> #[trigger] users_m[j] == users@[j]@,
            out.deep_view() == users_named(users_m.take(i as int), name@),
        decreases users@.len() - i,
    {
        let keep = users[i].username == *name;
        if keep {
            out.push(users[i].clone());
        }
        proof {
            reveal_with_fuel(Seq::filter, 2);
            assert(users_m.take(i as int + 1).drop_last() =~= users_m.take(i as int));
            assert(users_m.take(i as int + 1).last() == users_m[i as int]);
            if keep {
                assert(out.deep_view() =~= users_named(users_m.take(i as int), name@).push(
                    users_m[i as int],
                ));
            }
        }
        i += 1;
    }
    proof {
        assert(users_m.take(users_m.len() as int) =~= users_m);
    }
    out
}

/// Collect the tickets owned by the given user, in stored order.
fn tickets_matching_user(tickets: &Vec<UserTicket>, id: UserId) -> (r: Vec<UserTicket>)
    ensures
        r.deep_view() == tickets_of_user(tickets.deep_view(), id),
{
    let ghost tickets_m = tickets.deep_view();
    let mut out: Vec<UserTicket> = Vec::new();
    proof {
        assert(tickets_m.take(0) =~= Seq::<UserTicketModel>::empty());
        reveal_with_fuel(Seq::filter, 2);
    }
    let mut i: usize = 0;
    while i < tickets.len()
        invariant
            0 <= i <= tickets@.len(),
            tickets_m == tickets.deep_view(),
            tickets_m.len() == tickets@.len(),
            forall|j: int| 0 <= j < tickets_m.len() ==> #[trigger] tickets_m[j] == tickets@[j]@,
            out.deep_view() == tickets_of_user(tickets_m.take(i as int), id),
        decreases tickets@.len() - i,
    {
        let keep = tickets[i].user == id;
        if keep {
            out.push(tickets[i].clone());
        }
        proof {
            reveal_with_fuel(Seq::filter, 2);
            assert(tickets_m.take(i as int + 1).drop_last() =~= tickets_m.take(i as int));
            assert(tickets_m.take(i as int + 1).last() == tickets_m[i as int]);
            if keep {
                assert(out.deep_view() =~= tickets_of_user(tickets_m.take(i as int), id).push(
                    tickets_m[i as int],
                ));
            }
        }
        i += 1;
    }
    proof {
        assert(tickets_m.take(tickets_m.len() as int) =~= tickets_m);
    }
    out
}

/// Collect the tickets with the given ticket id, in stored order.
fn tickets_matching_id(tickets: &Vec<UserTicket>, id: TicketId) -> (r: Vec<UserTicket>)
    ensures
        r.deep_view() == tickets_with_id(tickets.deep_view(), id),
{
    let ghost tickets_m = tickets.deep_view();
    let mut out: Vec<UserTicket> = Vec::new();
    proof {
        assert(tickets_m.take(0) =~= Seq::<UserTicketModel>::empty());
        reveal_with_fuel(Seq::filter, 2);
    }
    let mut i: usize = 0;
    while i < tickets.len()
        invariant
            0 <= i <= tickets@.len(),
            tickets_m == tickets.deep_view(),
            tickets_m.len() == tickets@.len(),
            forall|j: int| 0 <= j < tickets_m.len() ==> #[trigger] tickets_m[j] == tickets@[j]@,
            out.deep_view() == tickets_with_id(tickets_m.take(i as int), id),
        decreases tickets@.len() - i,
    {
        let keep = tickets[i].id == id;
        if keep {
            out.push(tickets[i].clone());
        }
        proof {
            reveal_with_fuel(Seq::filter, 2);
            assert(tickets_m.take(i as int + 1).drop_last() =~= tickets_m.take(i as int));
            assert(tickets_m.take(i as int + 1).last() == tickets_m[i as int]);
            if keep {
                assert(out.deep_view() =~= tickets_with_id(tickets_m.take(i as int), id).push(
                    tickets_m[i as int],
                ));
            }
        }
        i += 1;
    }
    proof {
        assert(tickets_m.take(tickets_m.len() as int) =~= tickets_m);
    }
    out
}

/// Rebuild the tickets table with every row of the given id overwritten.
fn update_tickets(tickets: &Vec<UserTicket>, id: TicketId, usages: u64) -> (r: Vec<UserTicket>)
    ensures
        r.deep_view() == tickets_updated(tickets.deep_view(), id, usages),
{
    let ghost tickets_m = tickets.deep_view();
    let mut out: Vec<UserTicket> = Vec::new();
    let mut i: usize = 0;
    while i < tickets.len()
        invariant
            0 <= i <= tickets@.len(),
            tickets_m == tickets.deep_view(),
            tickets_m.len() == tickets@.len(),
            forall|j: int| 0 <= j < tickets_m.len() ==> #[trigger] tickets_m[j] == tickets@[j]@,
            out@.len() == i,
            forall|j: int|
                0 <= j < i ==> #[trigger] out.deep_view()[j] == tickets_updated(
                    tickets_m,
                    id,
                    usages,
                )[j],
        decreases tickets@.len() - i,
    {
        let mut row = tickets[i].clone();
        if row.id == id {
            row.usages = usages;
        }
        let ghost prev = out.deep_view();
        out.push(row);
        proof {
            assert(forall|k: int| 0 <= k < i ==> #[trigger] out.deep_view()[k] == prev[k]);
            assert(out.deep_view()[i as int] == tickets_updated(tickets_m, id, usages)[i as int]);
        }
        i += 1;
    }
    proof {
        assert(out.deep_view() =~= tickets_updated(tickets_m, id, usages));
    }
    out
}

impl Store {
    /// Execute one operation against the confined store: exactly
    /// [`spec_execute`], one operation at a time.
    pub fn execute(&mut self, op: &Operation) -> (r: Reply)
        ensures
            final(self)@ == spec_execute(old(self)@, *op).0,
            r@ == spec_execute(old(self)@, *op).1,
    {
        match op {
            Operation::GetUser { username } => {
                let mut rows = users_matching(&self.users, username);
                if rows.len() == 0 {
                    Reply::User(None)
                } else if rows.len() == 1 {
                    let row = rows.pop().unwrap();
                    proof {
                        assert(row@ == users_named(old(self)@.users, username@)[0]);
                    }
                    Reply::User(Some(row))
                } else {
                    Reply::Fatal(DbError::TooManyRows)
                }
            },
            Operation::InsertUser { username, password } => {
                let added = User {
                    id: UserId(self.next_user_id),
                    username: username.clone(),
                    password_hash: password.clone(),
                };
                self.users.push(added);
                if self.next_user_id < u64::MAX {
                    self.next_user_id = self.next_user_id + 1;
                }
                proof {
                    assert(self@.users =~= spec_execute(old(self)@, *op).0.users);
                }
                Reply::Done
            },
            Operation::GetUserTickets { id } => {
                let rows = tickets_matching_user(&self.tickets, *id);
                Reply::Tickets(rows)
            },
            Operation::GetTicket { id } => {
                let mut rows = tickets_matching_id(&self.tickets, *id);
                if rows.len() == 0 {
                    Reply::Ticket(None)
                } else if rows.len() == 1 {
                    let row = rows.pop().unwrap();
                    proof {
                        assert(row@ == tickets_with_id(old(self)@.tickets, *id)[0]);
                    }
                    Reply::Ticket(Some(row))
                } else {
                    Reply::Fatal(DbError::TooManyRows)
                }
            },
            Operation::UpdateTicketUsages { id, usages } => {
                let updated = update_tickets(&self.tickets, *id, *usages);
                self.tickets = updated;
                Reply::Done
            },
            Operation::InsertTicket { def, id, qr } => {
                let added = UserTicket {
                    id: TicketId(self.next_ticket_id),
                    def: *def,
                    user: *id,
                    qr: qr.clone(),
                    usages: 0,
                };
                self.tickets.push(added);
                if self.next_ticket_id < u64::MAX {
                    self.next_ticket_id = self.next_ticket_id + 1;
                }
                proof {
                    assert(self@.tickets =~= spec_execute(old(self)@, *op).0.tickets);
                }
                Reply::Done
            },
            Operation::GetTicketDefs => {
                let mut rows: Vec<TicketDef> = Vec::new();
                let mut i: usize = 0;
                while i < self.defs.len()
                    invariant
                        0 <= i <= self.defs@.len(),
                        rows@.len() == i,
                        forall|j: int|
                            0 <= j < i ==> #[trigger] rows.deep_view()[j] == self.defs.deep_view()[j],
                    decreases self.defs@.len() - i,
                {
                    let ghost prev = rows.deep_view();
                    rows.push(self.defs[i].clone());
                    proof {
                        assert(forall|k: int|
                            0 <= k < i ==> #[trigger] rows.deep_view()[k] == prev[k]);
                    }
                    i += 1;
                }
                proof {
                    assert(rows.deep_view() =~= self.defs.deep_view());
                }
                Reply::Defs(rows)
            },
        }
    }
}

} // verus!
