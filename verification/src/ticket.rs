//! Ticket definitions, purchased tickets, and the decisions the ticket
//! routes make about them.

use vstd::prelude::*;

use crate::database::Binding;
use crate::database::BindingModel;
use crate::database::Operation;
use crate::datetime::iso_timestamp_of;
use crate::datetime::parse_iso_datetime;
use crate::user::UserId;

verus! {

/// Key of a row in the ticket definitions table.
#[derive(Debug, Clone, Copy, PartialEq, Eq, Structural)]
pub struct DefId(pub u64);

/// Key of a row in the purchased-tickets table.
#[derive(Debug, Clone, Copy, PartialEq, Eq, Structural)]
pub struct TicketId(pub u64);

/// One row of the ticket definitions table.  `start` and `expiry` hold
/// ISO-8601 text exactly as the backend stores it.
#[derive(Debug)]
pub struct TicketDef {
    pub id: DefId,
    pub title: String,
    pub price: u64,
    pub start: String,
    pub expiry: String,
}

/// Mathematical image of a [`TicketDef`].
pub struct TicketDefModel {
    pub id: DefId,
    pub title: Seq<char>,
    pub price: u64,
    pub start: Seq<char>,
    pub expiry: Seq<char>,
}

impl View for TicketDef {
    type V = TicketDefModel;

    open spec fn view(&self) -> TicketDefModel {
        TicketDefModel {
            id: self.id,
            title: self.title@,
            price: self.price,
            start: self.start@,
            expiry: self.expiry@,
        }
    }
}

impl Clone for TicketDef {
    fn clone(&self) -> (res: Self)
        ensures
            res@ == self@,
    {
        TicketDef {
            id: self.id,
            title: self.title.clone(),
            price: self.price,
            start: self.start.clone(),
            expiry: self.expiry.clone(),
        }
    }
}

/// One row of the purchased-tickets table: a ticket some user owns.
#[derive(Debug)]
pub struct UserTicket {
    pub id: TicketId,
    pub def: DefId,
    pub user: UserId,
    pub qr: String,
    pub usages: u64,
}

/// Mathematical image of a [`UserTicket`].
pub struct UserTicketModel {
    pub id: TicketId,
    pub def: DefId,
    pub user: UserId,
    pub qr: Seq<char>,
    pub usages: u64,
}

impl View for UserTicket {
    type V = UserTicketModel;

    open spec fn view(&self) -> UserTicketModel {
        UserTicketModel {
            id: self.id,
            def: self.def,
            user: self.user,
            qr: self.qr@,
            usages: self.usages,
        }
    }
}

impl Clone for UserTicket {
    fn clone(&self) -> (res: Self)
        ensures
            res@ == self@,
    {
        UserTicket {
            id: self.id,
            def: self.def,
            user: self.user,
            qr: self.qr.clone(),
            usages: self.usages,
        }
    }
}

/// A purchased ticket joined with its definition, ready for display.
/// `start` and `expiry` are instants as Unix timestamps in seconds, the
/// plain value this crate keeps of a parsed ISO-8601 date-time.
#[derive(Debug)]
pub struct Ticket {
    pub id: TicketId,
    pub def: DefId,
    pub title: String,
    pub price: u64,
    pub start: i64,
    pub expiry: i64,
    pub qr: String,
    pub usages: u64,
}

/// Mathematical image of a [`Ticket`].
pub struct TicketModel {
    pub id: TicketId,
    pub def: DefId,
    pub title: Seq<char>,
    pub price: u64,
    pub start: i64,
    pub expiry: i64,
    pub qr: Seq<char>,
    pub usages: u64,
}

impl View for Ticket {
    type V = TicketModel;

    open spec fn view(&self) -> TicketModel {
        TicketModel {
            id: self.id,
            def: self.def,
            title: self.title@,
            price: self.price,
            start: self.start,
            expiry: self.expiry,
            qr: self.qr@,
            usages: self.usages,
        }
    }
}

impl Clone for Ticket {
    fn clone(&self) -> (res: Self)
        ensures
            res@ == self@,
    {
        Ticket {
            id: self.id,
            def: self.def,
            title: self.title.clone(),
            price: self.price,
            start: self.start,
            expiry: self.expiry,
            qr: self.qr.clone(),
            usages: self.usages,
        }
    }
}

impl DeepView for TicketDef {
    type V = TicketDefModel;

    open spec fn deep_view(&self) -> TicketDefModel {
        self.view()
    }
}

impl DeepView for UserTicket {
    type V = UserTicketModel;

    open spec fn deep_view(&self) -> UserTicketModel {
        self.view()
    }
}

impl DeepView for Ticket {
    type V = TicketModel;

    open spec fn deep_view(&self) -> TicketModel {
        self.view()
    }
}

/// Whether a definition's two date fields hold valid ISO-8601 text: an
/// invariant of the backend data that `Ticket::combine` depends on.
pub open spec fn def_dates_parse(def: TicketDefModel) -> bool {
    &&& iso_timestamp_of(def.start) is Some
    &&& iso_timestamp_of(def.expiry) is Some
}

/// The ticket obtained by joining a purchased ticket with its definition.
pub open spec fn combined(ut: UserTicketModel, def: TicketDefModel) -> TicketModel
    recommends
        ut.def == def.id,
        def_dates_parse(def),
{
    TicketModel {
        id: ut.id,
        def: def.id,
        title: def.title,
        price: def.price,
        start: iso_timestamp_of(def.start).unwrap(),
        expiry: iso_timestamp_of(def.expiry).unwrap(),
        qr: ut.qr,
        usages: ut.usages,
    }
}

impl Ticket {
    /// Join a purchased ticket with its definition.  The definition must be
    /// the right one and its dates must be valid ISO-8601 text — both
    /// invariants of the backend data; `try_combine` checks them instead of
    /// assuming them.
    pub fn combine(user_ticket: UserTicket, def: &TicketDef) -> (t: Ticket)
        requires
            user_ticket.def == def.id,
            def_dates_parse(def@),
        ensures
            t@ == combined(user_ticket@, def@),
    {
        let start = parse_iso_datetime(def.start.as_str()).unwrap();
        let expiry = parse_iso_datetime(def.expiry.as_str()).unwrap();
        Ticket {
            id: user_ticket.id,
            def: def.id,
            title: def.title.clone(),
            price: def.price,
            start,
            expiry,
            qr: user_ticket.qr,
            usages: user_ticket.usages,
        }
    }

    /// Like [`Ticket::combine`], but checks that the definition matches and
    /// that its dates parse, and reports a mismatch instead of assuming it
    /// away.
    pub fn try_combine(user_ticket: UserTicket, def: &TicketDef) -> (t: Option<Ticket>)
        ensures
            user_ticket@.def == def@.id && def_dates_parse(def@) ==> (t matches Some(v)
                && v@ == combined(user_ticket@, def@)),
            !(user_ticket@.def == def@.id && def_dates_parse(def@)) ==> t is None,
    {
        if user_ticket.def != def.id {
            return None;
        }
        if parse_iso_datetime(def.start.as_str()).is_none() {
            return None;
        }
        if parse_iso_datetime(def.expiry.as_str()).is_none() {
            return None;
        }
        Some(Self::combine(user_ticket, def))
    }
}

/// The first definition in the sequence carrying the given id, if any.
pub open spec fn first_def_with(defs: Seq<TicketDefModel>, id: DefId) -> Option<TicketDefModel>
    decreases defs.len(),
{
    if defs.len() == 0 {
        None
    } else if defs[0].id == id {
        Some(defs[0])
    } else {
        first_def_with(defs.skip(1), id)
    }
}

/// Find the first definition with the given id, as the routes do before
/// joining a ticket with its definition.
pub fn find_def(defs: &Vec<TicketDef>, id: DefId) -> (r: Option<usize>)
    ensures
        r matches Some(i) ==> i < defs@.len() && defs@[i as int]@.id == id && first_def_with(
            defs.deep_view(),
            id,
        ) == Some(defs@[i as int]@),
        r is None ==> first_def_with(defs.deep_view(), id) is None,
{
    let ghost all = defs.deep_view();
    proof {
        assert(all.skip(0) =~= all);
    }
    let mut i: usize = 0;
    while i < defs.len()
        invariant
            0 <= i <= defs@.len(),
            all == defs.deep_view(),
            all.len() == defs@.len(),
            forall|j: int| 0 <= j < all.len() ==> #[trigger] all[j] == defs@[j]@,
            first_def_with(all, id) == first_def_with(all.skip(i as int), id),
        decreases defs@.len() - i,
    {
        proof {
            assert(all.skip(i as int)[0] == all[i as int]);
        }
        if defs[i].id == id {
            return Some(i);
        }
        proof {
            assert(all.skip(i as int).skip(1) =~= all.skip(i as int + 1));
        }
        i += 1;
    }
    proof {
        assert(all.skip(all.len() as int) =~= Seq::<TicketDefModel>::empty());
    }
    None
}

/// Every purchased ticket in the sequence has a definition, and that
/// definition's dates parse: what the backend data guarantees before a
/// join, checked rather than assumed by [`try_tickets_from_defs`].
pub open spec fn all_tickets_join(
    tickets: Seq<UserTicketModel>,
    defs: Seq<TicketDefModel>,
) -> bool {
    forall|i: int|
        0 <= i < tickets.len() ==> {
            let d = first_def_with(defs, (#[trigger] tickets[i]).def);
            d matches Some(dd) && def_dates_parse(dd)
        }
}

/// The join of each purchased ticket with its (first matching) definition,
/// in the tickets' order.
pub open spec fn joined_tickets(
    tickets: Seq<UserTicketModel>,
    defs: Seq<TicketDefModel>,
) -> Seq<TicketModel>
    recommends
        all_tickets_join(tickets, defs),
{
    tickets.map(|i: int, ut: UserTicketModel| combined(ut, first_def_with(defs, ut.def).unwrap()))
}

/// Join every purchased ticket with its definition, reporting `None` as
/// soon as one ticket has no definition or a definition whose dates do not
/// parse: either means the backend data is broken.
pub fn try_tickets_from_defs(user_tickets: Vec<UserTicket>, defs: &Vec<TicketDef>) -> (r: Option<
    Vec<Ticket>,
>)
    ensures
        all_tickets_join(user_tickets.deep_view(), defs.deep_view()) ==> (r matches Some(v)
            && v.deep_view() == joined_tickets(user_tickets.deep_view(), defs.deep_view())),
        !all_tickets_join(user_tickets.deep_view(), defs.deep_view()) ==> r is None,
{
    let ghost tickets_m = user_tickets.deep_view();
    let ghost defs_m = defs.deep_view();
    let mut out: Vec<Ticket> = Vec::new();
    let mut i: usize = 0;
    while i < user_tickets.len()
        invariant
            0 <= i <= user_tickets@.len(),
            tickets_m == user_tickets.deep_view(),
            defs_m == defs.deep_view(),
            tickets_m.len() == user_tickets@.len(),
            forall|j: int| 0 <= j < tickets_m.len() ==> #[trigger] tickets_m[j] == user_tickets@[j]@,
            forall|j: int|
                0 <= j < i ==> {
                    let d = first_def_with(defs_m, (#[trigger] tickets_m[j]).def);
                    d matches Some(dd) && def_dates_parse(dd)
                },
            out@.len() == i,
            forall|j: int|
                0 <= j < i ==> #[trigger] out.deep_view()[j] == joined_tickets(tickets_m, defs_m)[j],
        decreases user_tickets@.len() - i,
    {
        let ut = user_tickets[i].clone();
        let ghost utm = ut@;
        proof {
            assert(utm == tickets_m[i as int]);
        }
        let found = find_def(defs, ut.def);
        let j = match found {
            Some(j) => j,
            None => {
                proof {
                    if all_tickets_join(tickets_m, defs_m) {
                        assert(first_def_with(defs_m, tickets_m[i as int].def) matches Some(dd)
                            && def_dates_parse(dd));
                        assert(false);
                    }
                }
                return None;
            },
        };
        let t = match Ticket::try_combine(ut, &defs[j]) {
            Some(t) => t,
            None => {
                proof {
                    assert(defs@[j as int]@.id == utm.def);
                    if all_tickets_join(tickets_m, defs_m) {
                        assert(first_def_with(defs_m, tickets_m[i as int].def) matches Some(dd)
                            && def_dates_parse(dd));
                        assert(def_dates_parse(defs@[j as int]@));
                        assert(false);
                    }
                }
                return None;
            },
        };
        let ghost prev = out.deep_view();
        out.push(t);
        proof {
            assert(first_def_with(defs_m, tickets_m[i as int].def) == Some(defs@[j as int]@));
            assert(first_def_with(defs_m, tickets_m[i as int].def).unwrap() == defs@[j as int]@);
            assert(t@ == combined(tickets_m[i as int], defs@[j as int]@));
            assert(joined_tickets(tickets_m, defs_m)[i as int] == combined(
                tickets_m[i as int],
                first_def_with(defs_m, tickets_m[i as int].def).unwrap(),
            ));
            assert(forall|k: int| 0 <= k < i ==> #[trigger] out.deep_view()[k] == prev[k]);
            assert(out.deep_view()[i as int] == t@);
        }
        i += 1;
    }
    proof {
        assert(out.deep_view() =~= joined_tickets(tickets_m, defs_m));
    }
    Some(out)
}

/// Join every purchased ticket with its definition.  The backend data must
/// satisfy [`all_tickets_join`]; [`try_tickets_from_defs`] checks it
/// instead.
pub fn tickets_from_defs(user_tickets: Vec<UserTicket>, defs: &Vec<TicketDef>) -> (r: Vec<Ticket>)
    requires
        all_tickets_join(user_tickets.deep_view(), defs.deep_view()),
    ensures
        r.deep_view() == joined_tickets(user_tickets.deep_view(), defs.deep_view()),
{
    try_tickets_from_defs(user_tickets, defs).unwrap()
}

/// A definition is claimed when one of the given tickets was bought from it.
pub open spec fn is_claimed(owned: Seq<TicketModel>, id: DefId) -> bool {
    exists|i: int| 0 <= i < owned.len() && (#[trigger] owned[i]).def == id
}

/// Whether one of the owned tickets was bought from this definition.
pub fn claimed(owned: &Vec<Ticket>, id: DefId) -> (b: bool)
    ensures
        b == is_claimed(owned.deep_view(), id),
{
    let ghost owned_m = owned.deep_view();
    let mut i: usize = 0;
    while i < owned.len()
        invariant
            0 <= i <= owned@.len(),
            owned_m == owned.deep_view(),
            owned_m.len() == owned@.len(),
            forall|j: int| 0 <= j < owned_m.len() ==> #[trigger] owned_m[j] == owned@[j]@,
            forall|j: int| 0 <= j < i ==> (#[trigger] owned_m[j]).def != id,
        decreases owned@.len() - i,
    {
        if owned[i].def == id {
            proof {
                assert((owned_m[i as int]).def == id);
            }
            return true;
        }
        i += 1;
    }
    false
}

/// The definitions the caller has not yet claimed a ticket from, in their
/// stored order: what the ticket form offers.
pub open spec fn unclaimed(defs: Seq<TicketDefModel>, owned: Seq<TicketModel>) -> Seq<
    TicketDefModel,
> {
    defs.filter(|d: TicketDefModel| !is_claimed(owned, d.id))
}

/// Keep only the definitions from which the caller owns no ticket yet.
pub fn unclaimed_defs(defs: &Vec<TicketDef>, owned: &Vec<Ticket>) -> (r: Vec<TicketDef>)
    ensures
        r.deep_view() == unclaimed(defs.deep_view(), owned.deep_view()),
{
    let ghost defs_m = defs.deep_view();
    let ghost owned_m = owned.deep_view();
    let mut out: Vec<TicketDef> = Vec::new();
    proof {
        assert(defs_m.take(0) =~= Seq::<TicketDefModel>::empty());
        reveal_with_fuel(Seq::filter, 2);
    }
    let mut i: usize = 0;
    while i < defs.len()
        invariant
            0 <= i <= defs@.len(),
            defs_m == defs.deep_view(),
            owned_m == owned.deep_view(),
            defs_m.len() == defs@.len(),
            forall|j: int| 0 <= j < defs_m.len() ==> #[trigger] defs_m[j] == defs@[j]@,
            out.deep_view() == unclaimed(defs_m.take(i as int), owned_m),
        decreases defs@.len() - i,
    {
        let keep = !claimed(owned, defs[i].id);
        if keep {
            out.push(defs[i].clone());
        }
        proof {
            reveal_with_fuel(Seq::filter, 2);
            assert(defs_m.take(i as int + 1).drop_last() =~= defs_m.take(i as int));
            assert(defs_m.take(i as int + 1).last() == defs_m[i as int]);
            if keep {
                assert(out.deep_view() =~= unclaimed(defs_m.take(i as int), owned_m).push(
                    defs_m[i as int],
                ));
            }
        }
        i += 1;
    }
    proof {
        assert(defs_m.take(defs_m.len() as int) =~= defs_m);
    }
    out
}

/// How a ticket's expiry should be shown, relative to the present instant.
/// Both instants are Unix timestamps in seconds.
#[derive(Debug, Clone, Copy, PartialEq, Eq, Structural)]
pub enum ExpiryStatus {
    /// The expiry has passed.
    Expired,
    /// Less than two weeks remain: shown as a countdown of whole days and
    /// the hours beyond them.
    Imminent { days: i64, hours: i64 },
    /// More than two weeks remain: shown as the absolute date.
    Distant,
}

/// Seconds in two weeks, the boundary between the countdown rendering and
/// the absolute-date rendering of an expiry.
pub const TWO_WEEKS_SECONDS: i64 = 1209600;

/// Classify a ticket's expiry against the present instant, as the ticket
/// card does before rendering it.
pub fn expiry_status(now: i64, expiry: i64) -> (r: ExpiryStatus)
    requires
        i64::MIN <= expiry - now <= i64::MAX,
    ensures
        now >= expiry ==> r == ExpiryStatus::Expired,
        now < expiry && expiry - now <= TWO_WEEKS_SECONDS ==> (r matches ExpiryStatus::Imminent {
            days,
            hours,
        } && days == (expiry - now) / 86400 && hours == (expiry - now) / 3600 - 24 * ((expiry - now)
            / 86400)),
        now < expiry && expiry - now > TWO_WEEKS_SECONDS ==> r == ExpiryStatus::Distant,
{
    if now >= expiry {
        return ExpiryStatus::Expired;
    }
    let difference = expiry - now;
    if difference <= TWO_WEEKS_SECONDS {
        let days = difference / 86400;
        let hours = difference / 3600 - 24 * days;
        ExpiryStatus::Imminent { days, hours }
    } else {
        ExpiryStatus::Distant
    }
}

/// Why a usage request was refused; the surrounding layer maps these to
/// status codes.
#[derive(Debug, Clone, Copy, PartialEq, Eq, Structural)]
pub enum UsageError {
    /// No ticket with the requested id exists.
    UnknownTicket,
    /// The ticket exists but belongs to someone else.
    NotOwner,
}

/// The outcome of a usage change: the count to report, and the update
/// operation to run against the store, absent when the count saturated.
#[derive(Debug)]
pub struct UsageStep {
    pub usages: u64,
    pub update: Option<UpdateUsage>,
}

/// The ticket a caller may act on: present and owned by the caller.
pub fn owned_ticket(found: Option<UserTicket>, caller: UserId) -> (r: Result<
    UserTicket,
    UsageError,
>)
    ensures
        found is None ==> r == Err::<UserTicket, UsageError>(UsageError::UnknownTicket),
        found matches Some(t) ==> (t.user != caller ==> r == Err::<UserTicket, UsageError>(
            UsageError::NotOwner,
        )),
        found matches Some(t) ==> (t.user == caller ==> (r matches Ok(v) && v@ == t@)),
    {
    match found {
        None => Err(UsageError::UnknownTicket),
        Some(t) => {
            if t.user != caller {
                Err(UsageError::NotOwner)
            } else {
                Ok(t)
            }
        },
    }
}

/// Decide an increment request: the caller must own the ticket, the count
/// saturates at its maximum (without touching the store), and otherwise the
/// incremented count is written back.
pub fn increment_usage(found: Option<UserTicket>, caller: UserId) -> (r: Result<
    UsageStep,
    UsageError,
>)
    ensures
        found is None ==> r == Err::<UsageStep, UsageError>(UsageError::UnknownTicket),
        found matches Some(t) ==> (t.user != caller ==> r == Err::<UsageStep, UsageError>(
            UsageError::NotOwner,
        )),
        found matches Some(t) ==> (t.user == caller && t.usages == u64::MAX ==> (r matches Ok(s)
            && s.usages == u64::MAX && s.update is None)),
        found matches Some(t) ==> (t.user == caller && t.usages < u64::MAX ==> (r matches Ok(s)
            && s.usages == t.usages + 1 && s.update == Some(
            (UpdateUsage { id: t.id, usages: (t.usages + 1) as u64 }),
        ))),
{
    let t = owned_ticket(found, caller)?;
    if t.usages == u64::MAX {
        Ok(UsageStep { usages: u64::MAX, update: None })
    } else {
        let usages = t.usages + 1;
        Ok(UsageStep { usages, update: Some(UpdateUsage { id: t.id, usages }) })
    }
}

/// Decide a decrement request: the caller must own the ticket, the count
/// stops at zero (without touching the store), and otherwise the
/// decremented count is written back.
pub fn decrement_usage(found: Option<UserTicket>, caller: UserId) -> (r: Result<
    UsageStep,
    UsageError,
>)
    ensures
        found is None ==> r == Err::<UsageStep, UsageError>(UsageError::UnknownTicket),
        found matches Some(t) ==> (t.user != caller ==> r == Err::<UsageStep, UsageError>(
            UsageError::NotOwner,
        )),
        found matches Some(t) ==> (t.user == caller && t.usages == 0 ==> (r matches Ok(s)
            && s.usages == 0 && s.update is None)),
        found matches Some(t) ==> (t.user == caller && t.usages > 0 ==> (r matches Ok(s)
            && s.usages == t.usages - 1 && s.update == Some(
            (UpdateUsage { id: t.id, usages: (t.usages - 1) as u64 }),
        ))),
{
    let t = owned_ticket(found, caller)?;
    if t.usages == 0 {
        Ok(UsageStep { usages: 0, update: None })
    } else {
        let usages = t.usages - 1;
        Ok(UsageStep { usages, update: Some(UpdateUsage { id: t.id, usages }) })
    }
}

/// Fetch one purchased ticket by id.
#[derive(Debug, Clone, Copy, PartialEq, Eq, Structural)]
pub struct GetTicket {
    pub id: TicketId,
}

impl GetTicket {
    /// The statement this query prepares.
    pub fn query(&self) -> (s: &'static str)
        ensures
            s@ == "SELECT * from user_tickets WHERE id = ?1"@,
    {
        "SELECT * from user_tickets WHERE id = ?1"
    }

    /// The values this query binds, in order.
    pub fn bindings(&self) -> (r: Vec<Binding>)
        ensures
            r.deep_view() =~= seq![BindingModel::Int(self.id.0)],
    {
        let r = vec![Binding::Int(self.id.0)];
        proof {
            assert(r.deep_view() =~= seq![BindingModel::Int(self.id.0)]);
        }
        r
    }

    /// The closed-set operation this query submits as.
    pub fn into_operation(self) -> (op: Operation)
        ensures
            op == (Operation::GetTicket { id: self.id }),
    {
        Operation::GetTicket { id: self.id }
    }
}

/// Fetch every ticket one user owns.
#[derive(Debug, Clone, Copy, PartialEq, Eq, Structural)]
pub struct GetAllFromUser {
    pub id: UserId,
}

impl GetAllFromUser {
    /// The statement this query prepares.
    pub fn query(&self) -> (s: &'static str)
        ensures
            s@ == "SELECT * FROM user_tickets WHERE user = ?1"@,
    {
        "SELECT * FROM user_tickets WHERE user = ?1"
    }

    /// The values this query binds, in order.
    pub fn bindings(&self) -> (r: Vec<Binding>)
        ensures
            r.deep_view() =~= seq![BindingModel::Int(self.id.0)],
    {
        let r = vec![Binding::Int(self.id.0)];
        proof {
            assert(r.deep_view() =~= seq![BindingModel::Int(self.id.0)]);
        }
        r
    }

    /// The closed-set operation this query submits as.
    pub fn into_operation(self) -> (op: Operation)
        ensures
            op == (Operation::GetUserTickets { id: self.id }),
    {
        Operation::GetUserTickets { id: self.id }
    }
}

/// Overwrite one ticket's usage count.
#[derive(Debug, Clone, Copy, PartialEq, Eq, Structural)]
pub struct UpdateUsage {
    pub id: TicketId,
    pub usages: u64,
}

impl UpdateUsage {
    /// The statement this query prepares.
    pub fn query(&self) -> (s: &'static str)
        ensures
            s@ == "UPDATE user_tickets SET usages = ?1 WHERE id = ?2"@,
    {
        "UPDATE user_tickets SET usages = ?1 WHERE id = ?2"
    }

    /// The values this query binds, in order.
    pub fn bindings(&self) -> (r: Vec<Binding>)
        ensures
            r.deep_view() =~= seq![BindingModel::Int(self.usages), BindingModel::Int(self.id.0)],
    {
        let r = vec![Binding::Int(self.usages), Binding::Int(self.id.0)];
        proof {
            assert(r.deep_view() =~= seq![
                BindingModel::Int(self.usages),
                BindingModel::Int(self.id.0),
            ]);
        }
        r
    }

    /// The closed-set operation this query submits as.
    pub fn into_operation(self) -> (op: Operation)
        ensures
            op == (Operation::UpdateTicketUsages { id: self.id, usages: self.usages }),
    {
        Operation::UpdateTicketUsages { id: self.id, usages: self.usages }
    }
}

/// Insert a newly claimed ticket for a user.
#[derive(Debug)]
pub struct Insert {
    pub user: UserId,
    pub def: DefId,
    pub qr: String,
}

impl Insert {
    /// The statement this query prepares.
    pub fn query(&self) -> (s: &'static str)
        ensures
            s@ == "INSERT INTO user_tickets (user, def, qr) VALUES (?1, ?2, ?3)"@,
    {
        "INSERT INTO user_tickets (user, def, qr) VALUES (?1, ?2, ?3)"
    }

    /// The values this query binds, in order.
    pub fn bindings(&self) -> (r: Vec<Binding>)
        ensures
            r.deep_view() =~= seq![
                BindingModel::Int(self.user.0),
                BindingModel::Int(self.def.0),
                BindingModel::Text(self.qr@),
            ],
    {
        let r = vec![
            Binding::Int(self.user.0),
            Binding::Int(self.def.0),
            Binding::Text(self.qr.clone()),
        ];
        proof {
            assert(r.deep_view() =~= seq![
                BindingModel::Int(self.user.0),
                BindingModel::Int(self.def.0),
                BindingModel::Text(self.qr@),
            ]);
        }
        r
    }

    /// The closed-set operation this query submits as.
    pub fn into_operation(self) -> (op: Operation)
        ensures
            op matches Operation::InsertTicket { def, id, qr } && def == self.def && id == self.user
                && qr@ == self.qr@,
    {
        Operation::InsertTicket { def: self.def, id: self.user, qr: self.qr }
    }
}

/// Fetch every ticket definition.
#[derive(Debug, Clone, Copy, PartialEq, Eq, Structural)]
pub struct GetAllDefinitions;

impl GetAllDefinitions {
    /// The statement this query prepares.
    pub fn query(&self) -> (s: &'static str)
        ensures
            s@ == "SELECT * FROM ticket_defs"@,
    {
        "SELECT * FROM ticket_defs"
    }

    /// The values this query binds: none.
    pub fn bindings(&self) -> (r: Vec<Binding>)
        ensures
            r.deep_view() =~= Seq::<BindingModel>::empty(),
    {
        let r: Vec<Binding> = Vec::new();
        proof {
            assert(r.deep_view() =~= Seq::<BindingModel>::empty());
        }
        r
    }

    /// The closed-set operation this query submits as.
    pub fn into_operation(self) -> (op: Operation)
        ensures
            op == Operation::GetTicketDefs,
    {
        Operation::GetTicketDefs
    }
}

} // verus!
