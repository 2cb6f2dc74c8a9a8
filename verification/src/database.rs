//! The relational-store actor: its closed operation catalog, the command
//! queue in front of it, and the actor loop that is the only flow allowed
//! to touch the store.

use vstd::prelude::*;

use crate::QUEUE_CAPACITY;
use crate::mailbox::ActorState;
use crate::mailbox::Command;
use crate::mailbox::Mailbox;
use crate::mailbox::SlotModel;
use crate::mailbox::SlotState;
use crate::mailbox::SubmitError;
use crate::store::Store;
use crate::store::StoreModel;
use crate::store::spec_execute;
use crate::ticket::DefId;
use crate::ticket::TicketDef;
use crate::ticket::TicketDefModel;
use crate::ticket::TicketId;
use crate::ticket::UserTicket;
use crate::ticket::UserTicketModel;
use crate::user::User;
use crate::user::UserId;
use crate::user::UserModel;

verus! {

/// One positional value bound into a prepared statement.
#[derive(Debug)]
pub enum Binding {
    Int(u64),
    Text(String),
}

/// Mathematical image of a [`Binding`].
pub enum BindingModel {
    Int(u64),
    Text(Seq<char>),
}

impl View for Binding {
    type V = BindingModel;

    open spec fn view(&self) -> BindingModel {
        match self {
            Binding::Int(n) => BindingModel::Int(*n),
            Binding::Text(s) => BindingModel::Text(s@),
        }
    }
}

impl DeepView for Binding {
    type V = BindingModel;

    open spec fn deep_view(&self) -> BindingModel {
        self.view()
    }
}

/// How many rows an operation declares it yields.
#[derive(Debug, Clone, Copy, PartialEq, Eq, Structural)]
pub enum ResultShape {
    /// Only a side effect; the reply carries no payload beyond completion.
    Effect,
    /// Zero rows or exactly one; more than one breaks a uniqueness
    /// invariant of the data.
    OptionalOne,
    /// An ordered sequence of rows, possibly empty.
    Many,
}

/// The closed set of operations the relational-store actor executes; each
/// variant carries only the fields its statement binds.
#[derive(Debug)]
pub enum Operation {
    GetUser { username: String },
    InsertUser { username: String, password: String },
    GetUserTickets { id: UserId },
    GetTicket { id: TicketId },
    UpdateTicketUsages { id: TicketId, usages: u64 },
    InsertTicket { def: DefId, id: UserId, qr: String },
    GetTicketDefs,
}

/// The statement each operation prepares: the fixed dispatch table of the
/// closed operation set.
pub open spec fn statement_model(op: Operation) -> Seq<char> {
    match op {
        Operation::GetUser { .. } => "SELECT * FROM users WHERE username = ?1"@,
        Operation::InsertUser { .. } => "INSERT INTO users (username, password_hash) VALUES (?1, ?2)"@,
        Operation::GetUserTickets { .. } => "SELECT * FROM user_tickets WHERE user = ?1"@,
        Operation::GetTicket { .. } => "SELECT * from user_tickets WHERE id = ?1"@,
        Operation::UpdateTicketUsages { .. } => "UPDATE user_tickets SET usages = ?1 WHERE id = ?2"@,
        Operation::InsertTicket { .. } => "INSERT INTO user_tickets (user, def, qr) VALUES (?1, ?2, ?3)"@,
        Operation::GetTicketDefs => "SELECT * FROM ticket_defs"@,
    }
}

/// The values each operation binds, in positional order.
pub open spec fn bindings_model(op: Operation) -> Seq<BindingModel> {
    match op {
        Operation::GetUser { username } => seq![BindingModel::Text(username@)],
        Operation::InsertUser { username, password } => seq![
            BindingModel::Text(username@),
            BindingModel::Text(password@),
        ],
        Operation::GetUserTickets { id } => seq![BindingModel::Int(id.0)],
        Operation::GetTicket { id } => seq![BindingModel::Int(id.0)],
        Operation::UpdateTicketUsages { id, usages } => seq![
            BindingModel::Int(usages),
            BindingModel::Int(id.0),
        ],
        Operation::InsertTicket { def, id, qr } => seq![
            BindingModel::Int(id.0),
            BindingModel::Int(def.0),
            BindingModel::Text(qr@),
        ],
        Operation::GetTicketDefs => Seq::<BindingModel>::empty(),
    }
}

/// The result shape each operation declares.
pub open spec fn shape_model(op: Operation) -> ResultShape {
    match op {
        Operation::GetUser { .. } => ResultShape::OptionalOne,
        Operation::InsertUser { .. } => ResultShape::Effect,
        Operation::GetUserTickets { .. } => ResultShape::Many,
        Operation::GetTicket { .. } => ResultShape::OptionalOne,
        Operation::UpdateTicketUsages { .. } => ResultShape::Effect,
        Operation::InsertTicket { .. } => ResultShape::Effect,
        Operation::GetTicketDefs => ResultShape::Many,
    }
}

impl Operation {
    /// The statement text the actor prepares for this operation.
    pub fn statement(&self) -> (s: &'static str)
        ensures
            s@ == statement_model(*self),
    {
        match self {
            Operation::GetUser { .. } => "SELECT * FROM users WHERE username = ?1",
            Operation::InsertUser { .. } => "INSERT INTO users (username, password_hash) VALUES (?1, ?2)",
            Operation::GetUserTickets { .. } => "SELECT * FROM user_tickets WHERE user = ?1",
            Operation::GetTicket { .. } => "SELECT * from user_tickets WHERE id = ?1",
            Operation::UpdateTicketUsages { .. } => "UPDATE user_tickets SET usages = ?1 WHERE id = ?2",
            Operation::InsertTicket { .. } => "INSERT INTO user_tickets (user, def, qr) VALUES (?1, ?2, ?3)",
            Operation::GetTicketDefs => "SELECT * FROM ticket_defs",
        }
    }

    /// The values the actor binds into the prepared statement, in order.
    pub fn bindings(&self) -> (r: Vec<Binding>)
        ensures
            r.deep_view() == bindings_model(*self),
    {
        let r: Vec<Binding> = match self {
            Operation::GetUser { username } => vec![Binding::Text(username.clone())],
            Operation::InsertUser { username, password } => vec![
                Binding::Text(username.clone()),
                Binding::Text(password.clone()),
            ],
            Operation::GetUserTickets { id } => vec![Binding::Int(id.0)],
            Operation::GetTicket { id } => vec![Binding::Int(id.0)],
            Operation::UpdateTicketUsages { id, usages } => vec![
                Binding::Int(*usages),
                Binding::Int(id.0),
            ],
            Operation::InsertTicket { def, id, qr } => vec![
                Binding::Int(id.0),
                Binding::Int(def.0),
                Binding::Text(qr.clone()),
            ],
            Operation::GetTicketDefs => Vec::new(),
        };
        proof {
            assert(r.deep_view() =~= bindings_model(*self));
        }
        r
    }

    /// The result shape this operation declares.
    pub fn shape(&self) -> (r: ResultShape)
        ensures
            r == shape_model(*self),
    {
        match self {
            Operation::GetUser { .. } => ResultShape::OptionalOne,
            Operation::InsertUser { .. } => ResultShape::Effect,
            Operation::GetUserTickets { .. } => ResultShape::Many,
            Operation::GetTicket { .. } => ResultShape::OptionalOne,
            Operation::UpdateTicketUsages { .. } => ResultShape::Effect,
            Operation::InsertTicket { .. } => ResultShape::Effect,
            Operation::GetTicketDefs => ResultShape::Many,
        }
    }
}

/// A per-request fatal condition, delivered through that request's reply
/// channel rather than thrown across the queue: the loop keeps serving the
/// commands behind it.  The store here holds typed rows, so a failing
/// statement or a row that fails to parse cannot arise in the core; a
/// deployed backend maps both to a failure of this kind on the same path.
#[derive(Debug, Clone, Copy, PartialEq, Eq, Structural)]
pub enum DbError {
    /// More than one row where at most one was expected: a uniqueness
    /// invariant of the data is broken.
    TooManyRows,
}

/// One reply, exactly one of which is delivered per executed operation.
#[derive(Debug)]
pub enum Reply {
    /// Reply to `GetUser`.
    User(Option<User>),
    /// Reply to `GetTicket`.
    Ticket(Option<UserTicket>),
    /// Reply to `GetUserTickets`.
    Tickets(Vec<UserTicket>),
    /// Reply to `GetTicketDefs`.
    Defs(Vec<TicketDef>),
    /// Reply to an effect-only operation: completed.
    Done,
    /// The operation failed; the loop keeps serving later commands.
    Fatal(DbError),
}

/// Mathematical image of a [`Reply`].
pub enum ReplyModel {
    User(Option<UserModel>),
    Ticket(Option<UserTicketModel>),
    Tickets(Seq<UserTicketModel>),
    Defs(Seq<TicketDefModel>),
    Done,
    Fatal(DbError),
}

impl View for Reply {
    type V = ReplyModel;

    open spec fn view(&self) -> ReplyModel {
        match self {
            Reply::User(u) => ReplyModel::User(
                match u {
                    Some(u) => Some(u@),
                    None => None,
                },
            ),
            Reply::Ticket(t) => ReplyModel::Ticket(
                match t {
                    Some(t) => Some(t@),
                    None => None,
                },
            ),
            Reply::Tickets(ts) => ReplyModel::Tickets(ts.deep_view()),
            Reply::Defs(ds) => ReplyModel::Defs(ds.deep_view()),
            Reply::Done => ReplyModel::Done,
            Reply::Fatal(e) => ReplyModel::Fatal(*e),
        }
    }
}

/// Mathematical image of one whole database context: the command queue,
/// the reply slots, the handle's closed flag, the actor's state, and the
/// confined store.
#[verifier::ext_equal]
pub struct SystemModel {
    pub queue: Seq<Command<Operation>>,
    pub slots: Seq<SlotModel<ReplyModel>>,
    pub closed: bool,
    pub running: bool,
    pub store: StoreModel,
}

/// Well-formedness of a database context: the queue respects its capacity,
/// every queued command names an allocated, still-waiting reply slot, and
/// no two queued commands share a slot.
pub open spec fn model_wf(s: SystemModel) -> bool {
    &&& s.queue.len() <= QUEUE_CAPACITY
    &&& forall|i: int|
        0 <= i < s.queue.len() && (#[trigger] s.queue[i]) is Execute ==> s.queue[i]->slot
            < s.slots.len() && s.slots[s.queue[i]->slot as int] is Waiting
    &&& forall|i: int, j: int|
        0 <= i < j < s.queue.len() && (#[trigger] s.queue[i]) is Execute && (#[trigger] s.queue[j]) is Execute
            ==> s.queue[i]->slot != s.queue[j]->slot
}

/// Submitting one operation: rejected outright after `close`, turned away
/// (and unchanged — the caller suspends and retries) while the queue is
/// full, and otherwise appended at the back with a fresh waiting slot.
pub open spec fn spec_submit(s: SystemModel, op: Operation) -> (SystemModel, Result<
    usize,
    SubmitError,
>) {
    if s.closed {
        (s, Err(SubmitError::Closed))
    } else if s.queue.len() >= QUEUE_CAPACITY {
        (s, Err(SubmitError::Full))
    } else {
        (
            SystemModel {
                queue: s.queue.push(Command::Execute { op, slot: s.slots.len() as usize }),
                slots: s.slots.push(SlotModel::Waiting),
                ..s
            },
            Ok(s.slots.len() as usize),
        )
    }
}

/// Sending the shutdown sentinel: rejected after a first `close`, turned
/// away while the queue is full, and otherwise the sentinel joins the back
/// of the queue and the handle refuses every later submission.
pub open spec fn spec_close(s: SystemModel) -> (SystemModel, Result<(), SubmitError>) {
    if s.closed {
        (s, Err(SubmitError::Closed))
    } else if s.queue.len() >= QUEUE_CAPACITY {
        (s, Err(SubmitError::Full))
    } else {
        (SystemModel { queue: s.queue.push(Command::Close), closed: true, ..s }, Ok(()))
    }
}

/// One turn of the actor loop: take the front command; on `Close` stop for
/// good (commands still queued behind it are left unconsumed); otherwise
/// execute the operation against the store and deliver its one reply into
/// the slot the command names.
pub open spec fn spec_step(s: SystemModel) -> SystemModel {
    if !s.running || s.queue.len() == 0 {
        s
    } else {
        match s.queue[0] {
            Command::Close => SystemModel { queue: s.queue.remove(0), running: false, ..s },
            Command::Execute { op, slot } => {
                let executed = spec_execute(s.store, op);
                SystemModel {
                    queue: s.queue.remove(0),
                    slots: if slot < s.slots.len() {
                        s.slots.update(slot as int, SlotModel::Delivered(executed.1))
                    } else {
                        s.slots
                    },
                    store: executed.0,
                    ..s
                }
            },
        }
    }
}

/// The actor loop run to quiescence: stepping until the queue is empty or
/// `Close` has stopped the loop.
pub open spec fn spec_run(s: SystemModel) -> SystemModel
    decreases s.queue.len(),
{
    if !s.running || s.queue.len() == 0 {
        s
    } else {
        spec_run(spec_step(s))
    }
}

/// Collecting a reply: the slot yields its delivered reply exactly once.
pub open spec fn spec_take(s: SystemModel, slot: usize) -> (SystemModel, Option<ReplyModel>) {
    if slot < s.slots.len() && s.slots[slot as int] is Delivered {
        (
            SystemModel { slots: s.slots.update(slot as int, SlotModel::Taken), ..s },
            Some(s.slots[slot as int]->Delivered_0),
        )
    } else {
        (s, None)
    }
}

/// What one turn of the actor loop reports.
#[derive(Debug, Clone, Copy, PartialEq, Eq, Structural)]
pub enum StepOutcome {
    /// The queue was empty; nothing to do.
    Idle,
    /// One operation was executed and its reply delivered.
    Executed,
    /// The loop is stopped (it dequeued `Close`, or already had).
    Stopped,
}

/// One whole per-request database context: the caller-facing mailbox, the
/// actor's state, and the confined store only the actor loop touches.  In
/// the running service the three live on different tasks, sharing only the
/// queue; this value models the context as a whole, so every interleaving
/// of submissions and actor turns can be driven explicitly.
#[derive(Debug)]
pub struct DatabaseConn {
    pub mailbox: Mailbox<Operation, Reply>,
    pub state: ActorState,
    pub store: Store,
}

impl View for DatabaseConn {
    type V = SystemModel;

    open spec fn view(&self) -> SystemModel {
        SystemModel {
            queue: self.mailbox.queue@,
            slots: self.mailbox.slots_model(),
            closed: self.mailbox.closed,
            running: self.state is Running,
            store: self.store@,
        }
    }
}

/// Create one database context around a seeded store, as each request does
/// on arrival.
pub fn database(store: Store) -> (c: DatabaseConn)
    ensures
        c.wf(),
        c@ == (SystemModel {
            queue: Seq::<Command<Operation>>::empty(),
            slots: Seq::<SlotModel<ReplyModel>>::empty(),
            closed: false,
            running: true,
            store: store@,
        }),
{
    let c = DatabaseConn {
        mailbox: Mailbox::new(QUEUE_CAPACITY),
        state: ActorState::Running,
        store,
    };
    proof {
        assert(c@ =~= (SystemModel {
            queue: Seq::<Command<Operation>>::empty(),
            slots: Seq::<SlotModel<ReplyModel>>::empty(),
            closed: false,
            running: true,
            store: c.store@,
        }));
    }
    c
}

impl DatabaseConn {
    /// Well-formedness carried by every method: the model invariant, plus
    /// the fixed queue capacity.
    pub open spec fn wf(&self) -> bool {
        &&& model_wf(self@)
        &&& self.mailbox.queue.cap() == QUEUE_CAPACITY
    }

    /// Submit one operation, pairing it with a fresh reply slot whose index
    /// the caller keeps to collect the reply.
    pub fn submit(&mut self, op: Operation) -> (r: Result<usize, SubmitError>)
        requires
            old(self).wf(),
        ensures
            final(self).wf(),
            final(self)@ == spec_submit(old(self)@, op).0,
            r == spec_submit(old(self)@, op).1,
    {
        proof {
            assert(self.mailbox.wf());
        }
        let r = self.mailbox.submit(op);
        proof {
            assert(self@ =~= spec_submit(old(self)@, op).0);
            assert(model_wf(self@));
        }
        r
    }

    /// Collect the reply delivered for one submitted operation: a value is
    /// yielded exactly once per slot.
    pub fn take_reply(&mut self, slot: usize) -> (r: Option<Reply>)
        requires
            old(self).wf(),
        ensures
            final(self).wf(),
            final(self)@ == spec_take(old(self)@, slot).0,
            r is Some <==> spec_take(old(self)@, slot).1 is Some,
            r matches Some(v) ==> spec_take(old(self)@, slot).1 == Some(v@),
    {
        proof {
            assert(self.mailbox.wf());
        }
        let r = self.mailbox.take_reply(slot);
        proof {
            assert(self@ =~= spec_take(old(self)@, slot).0);
            assert(model_wf(self@));
        }
        r
    }

    /// Send the shutdown sentinel; afterwards every further submission is
    /// rejected outright.
    pub fn close(&mut self) -> (r: Result<(), SubmitError>)
        requires
            old(self).wf(),
        ensures
            final(self).wf(),
            final(self)@ == spec_close(old(self)@).0,
            r == spec_close(old(self)@).1,
    {
        proof {
            assert(self.mailbox.wf());
        }
        let r = self.mailbox.close();
        proof {
            assert(self@ =~= spec_close(old(self)@).0);
            assert(model_wf(self@));
        }
        r
    }

    /// One turn of the actor loop.
    pub fn step(&mut self) -> (r: StepOutcome)
        requires
            old(self).wf(),
        ensures
            final(self).wf(),
            final(self)@ == spec_step(old(self)@),
            (r == StepOutcome::Stopped) == (!old(self)@.running || (old(self)@.queue.len() > 0
                && old(self)@.queue[0] is Close)),
            (r == StepOutcome::Idle) == (old(self)@.running && old(self)@.queue.len() == 0),
    {
        let ghost pre = self@;
        proof {
            lemma_step_preserves_wf(pre);
        }
        if !self.state.is_running() {
            return StepOutcome::Stopped;
        }
        proof {
            assert(self.mailbox.queue.wf());
        }
        let cmd = self.mailbox.queue.pop_front();
        match cmd {
            None => {
                proof {
                    assert(self@ =~= spec_step(pre));
                }
                StepOutcome::Idle
            },
            Some(Command::Close) => {
                self.state = ActorState::Stopped;
                proof {
                    assert(self@ =~= spec_step(pre));
                }
                StepOutcome::Stopped
            },
            Some(Command::Execute { op, slot }) => {
                proof {
                    assert(pre.queue[0] is Execute);
                    assert(slot < self.mailbox.slots@.len());
                }
                let reply = self.store.execute(&op);
                self.mailbox.slots[slot] = SlotState::Delivered(reply);
                proof {
                    assert(self.mailbox.slots_model() =~= pre.slots.update(
                        slot as int,
                        SlotModel::Delivered(spec_execute(pre.store, op).1),
                    ));
                    assert(self@ =~= spec_step(pre));
                }
                StepOutcome::Executed
            },
        }
    }

    /// Drain the queue: turn the actor until it idles or `Close` stops it.
    pub fn run(&mut self)
        requires
            old(self).wf(),
        ensures
            final(self).wf(),
            final(self)@ == spec_run(old(self)@),
    {
        while self.state.is_running() && self.mailbox.queue.len() > 0
            invariant
                self.wf(),
                spec_run(self@) == spec_run(old(self)@),
            decreases self@.queue.len(),
        {
            self.step();
        }
        proof {
            assert(spec_run(self@) == self@);
        }
    }

    /// Submit a fetch of one user by username.
    pub fn get_user(&mut self, username: String) -> (r: Result<usize, SubmitError>)
        requires
            old(self).wf(),
        ensures
            final(self).wf(),
            final(self)@ == spec_submit(old(self)@, (Operation::GetUser { username })).0,
            r == spec_submit(old(self)@, (Operation::GetUser { username })).1,
    {
        self.submit(Operation::GetUser { username })
    }

    /// Submit an insert of a new user.
    pub fn insert_user(&mut self, username: String, password: String) -> (r: Result<
        usize,
        SubmitError,
    >)
        requires
            old(self).wf(),
        ensures
            final(self).wf(),
            final(self)@ == spec_submit(old(self)@, (Operation::InsertUser { username, password })).0,
            r == spec_submit(old(self)@, (Operation::InsertUser { username, password })).1,
    {
        self.submit(Operation::InsertUser { username, password })
    }

    /// Submit a fetch of every ticket one user owns.
    pub fn get_user_tickets(&mut self, id: UserId) -> (r: Result<usize, SubmitError>)
        requires
            old(self).wf(),
        ensures
            final(self).wf(),
            final(self)@ == spec_submit(old(self)@, (Operation::GetUserTickets { id })).0,
            r == spec_submit(old(self)@, (Operation::GetUserTickets { id })).1,
    {
        self.submit(Operation::GetUserTickets { id })
    }

    /// Submit a fetch of one purchased ticket by id.
    pub fn get_ticket(&mut self, id: TicketId) -> (r: Result<usize, SubmitError>)
        requires
            old(self).wf(),
        ensures
            final(self).wf(),
            final(self)@ == spec_submit(old(self)@, (Operation::GetTicket { id })).0,
            r == spec_submit(old(self)@, (Operation::GetTicket { id })).1,
    {
        self.submit(Operation::GetTicket { id })
    }

    /// Submit an overwrite of one ticket's usage count.
    pub fn update_ticket_usages(&mut self, id: TicketId, usages: u64) -> (r: Result<
        usize,
        SubmitError,
    >)
        requires
            old(self).wf(),
        ensures
            final(self).wf(),
            final(self)@ == spec_submit(
                old(self)@,
                (Operation::UpdateTicketUsages { id, usages }),
            ).0,
            r == spec_submit(old(self)@, (Operation::UpdateTicketUsages { id, usages })).1,
    {
        self.submit(Operation::UpdateTicketUsages { id, usages })
    }

    /// Submit an insert of a newly claimed ticket.
    pub fn insert_tickets_for(&mut self, id: UserId, def: DefId, qr: String) -> (r: Result<
        usize,
        SubmitError,
    >)
        requires
            old(self).wf(),
        ensures
            final(self).wf(),
            final(self)@ == spec_submit(old(self)@, (Operation::InsertTicket { def, id, qr })).0,
            r == spec_submit(old(self)@, (Operation::InsertTicket { def, id, qr })).1,
    {
        self.submit(Operation::InsertTicket { def, id, qr })
    }

    /// Submit a fetch of every ticket definition.
    pub fn get_ticket_defs(&mut self) -> (r: Result<usize, SubmitError>)
        requires
            old(self).wf(),
        ensures
            final(self).wf(),
            final(self)@ == spec_submit(old(self)@, Operation::GetTicketDefs).0,
            r == spec_submit(old(self)@, Operation::GetTicketDefs).1,
    {
        self.submit(Operation::GetTicketDefs)
    }
}

/// The store after the queued commands are applied one at a time, front to
/// back, stopping at the first shutdown sentinel.
pub open spec fn apply_commands(store: StoreModel, cmds: Seq<Command<Operation>>) -> StoreModel
    decreases cmds.len(),
{
    if cmds.len() == 0 {
        store
    } else {
        match cmds[0] {
            Command::Close => store,
            Command::Execute { op, .. } => apply_commands(
                spec_execute(store, op).0,
                cmds.remove(0),
            ),
        }
    }
}

/// Ordering: running the actor applies the queued operations to the store
/// in queue order — for commands of a single caller, submission order —
/// one at a time and stopping at the first shutdown sentinel.
pub proof fn lemma_run_applies_in_order(s: SystemModel)
    requires
        model_wf(s),
        s.running,
    ensures
        spec_run(s).store == apply_commands(s.store, s.queue),
    decreases s.queue.len(),
{
    if s.queue.len() == 0 {
    } else {
        lemma_step_preserves_wf(s);
        match s.queue[0] {
            Command::Close => {
                assert(spec_run(s) == spec_run(spec_step(s)));
                assert(spec_run(spec_step(s)) == spec_step(s));
            },
            Command::Execute { op, slot } => {
                lemma_run_applies_in_order(spec_step(s));
                assert(spec_run(s) == spec_run(spec_step(s)));
            },
        }
    }
}

/// At most one writer: nothing the callers do (submitting, closing,
/// collecting replies) ever touches the store, and one actor turn applies
/// at most the single operation at the front of the queue.  The actor loop
/// is the store's only writer, one operation at a time.
pub proof fn lemma_single_writer(s: SystemModel, op: Operation, slot: usize)
    ensures
        spec_submit(s, op).0.store == s.store,
        spec_close(s).0.store == s.store,
        spec_take(s, slot).0.store == s.store,
        s.running && s.queue.len() > 0 && s.queue[0] is Execute ==> spec_step(s).store
            == spec_execute(s.store, s.queue[0]->op).0,
        !(s.running && s.queue.len() > 0 && s.queue[0] is Execute) ==> spec_step(s).store
            == s.store,
{
}

/// No second reply: a slot that is no longer waiting is never written
/// again — the run leaves it exactly as it was.
pub proof fn lemma_no_second_reply(s: SystemModel, k: int)
    requires
        model_wf(s),
        0 <= k < s.slots.len(),
        !(s.slots[k] is Waiting),
    ensures
        spec_run(s).slots.len() == s.slots.len(),
        spec_run(s).slots[k] == s.slots[k],
    decreases s.queue.len(),
{
    if !s.running || s.queue.len() == 0 {
    } else {
        lemma_step_preserves_wf(s);
        match s.queue[0] {
            Command::Close => {
                lemma_no_second_reply(spec_step(s), k);
            },
            Command::Execute { op, slot } => {
                assert(s.slots[slot as int] is Waiting);
                lemma_no_second_reply(spec_step(s), k);
            },
        }
    }
}

/// Exactly one reply: an operation queued ahead of any shutdown sentinel
/// has a waiting reply slot before the run, and after the run that slot
/// holds a delivered reply — delivered once, by the turn that dequeued the
/// operation, and never overwritten.
pub proof fn lemma_exactly_one_reply(s: SystemModel, i: int)
    requires
        model_wf(s),
        s.running,
        0 <= i < s.queue.len(),
        s.queue[i] is Execute,
        forall|j: int| 0 <= j <= i ==> !((#[trigger] s.queue[j]) is Close),
    ensures
        s.slots[s.queue[i]->slot as int] is Waiting,
        spec_run(s).slots.len() == s.slots.len(),
        spec_run(s).slots[s.queue[i]->slot as int] is Delivered,
    decreases s.queue.len(),
{
    let slot = s.queue[i]->slot;
    lemma_step_preserves_wf(s);
    let t = spec_step(s);
    if i == 0 {
        assert(t.slots[slot as int] is Delivered);
        lemma_no_second_reply(t, slot as int);
        assert(spec_run(s) == spec_run(t));
    } else {
        assert(!(s.queue[0] is Close));
        assert(s.queue[0] is Execute);
        assert(s.queue[0]->slot != slot);
        assert(t.queue[i - 1] == s.queue[i]);
        assert forall|j: int| 0 <= j <= i - 1 implies !((#[trigger] t.queue[j]) is Close) by {
            assert(t.queue[j] == s.queue[j + 1]);
        }
        lemma_exactly_one_reply(t, i - 1);
        assert(spec_run(s) == spec_run(t));
    }
}

/// Operations still queued behind the shutdown sentinel are abandoned: the
/// run stops at the sentinel and their reply slots stay waiting forever.
/// This mirrors the source's sentinel-return behaviour and is kept as a
/// known limitation rather than silently drained.
pub proof fn lemma_abandoned_behind_close(s: SystemModel, c: int, i: int)
    requires
        model_wf(s),
        0 <= c < i < s.queue.len(),
        s.queue[c] is Close,
        s.queue[i] is Execute,
    ensures
        spec_run(s).slots.len() == s.slots.len(),
        spec_run(s).slots[s.queue[i]->slot as int] is Waiting,
    decreases s.queue.len(),
{
    let slot = s.queue[i]->slot;
    lemma_step_preserves_wf(s);
    if !s.running {
    } else {
        let t = spec_step(s);
        if s.queue[0] is Close {
            assert(!t.running);
            assert(spec_run(t) == t);
            assert(t.slots == s.slots);
        } else {
            assert(s.queue[0] is Execute);
            assert(s.queue[0]->slot != slot);
            assert(t.queue[c - 1] == s.queue[c]);
            assert(t.queue[i - 1] == s.queue[i]);
            if c == 0 {
                assert(false);
            } else {
                lemma_abandoned_behind_close(t, c - 1, i - 1);
            }
        }
        assert(spec_run(s) == spec_run(t));
    }
}

/// Backpressure: a submission against a full queue is turned away with the
/// context unchanged — the caller suspends and retries; nothing is dropped
/// and nothing fails — and the same submission goes through once the actor
/// has dequeued a single command.
pub proof fn lemma_backpressure(s: SystemModel, op: Operation)
    requires
        model_wf(s),
        !s.closed,
        s.running,
        s.queue.len() == QUEUE_CAPACITY,
    ensures
        spec_submit(s, op).1 == Err::<usize, SubmitError>(SubmitError::Full),
        spec_submit(s, op).0 == s,
        spec_submit(spec_step(s), op).1 is Ok,
{
    assert(spec_step(s).queue.len() < QUEUE_CAPACITY);
}

/// The actor loop terminates once a shutdown sentinel sits anywhere in the
/// queue: commands behind the sentinel are left unconsumed.
pub proof fn lemma_close_stops_the_loop(s: SystemModel)
    requires
        exists|i: int| 0 <= i < s.queue.len() && (#[trigger] s.queue[i]) is Close,
    ensures
        !spec_run(s).running,
    decreases s.queue.len(),
{
    if !s.running {
    } else {
        let i = choose|i: int| 0 <= i < s.queue.len() && (#[trigger] s.queue[i]) is Close;
        let t = spec_step(s);
        if s.queue[0] is Close {
            assert(!t.running);
            assert(spec_run(t) == t);
        } else {
            assert(i > 0);
            assert(t.queue[i - 1] == s.queue[i]);
            assert(0 <= i - 1 < t.queue.len() && t.queue[i - 1] is Close);
            lemma_close_stops_the_loop(t);
        }
        assert(spec_run(s) == spec_run(t));
    }
}

/// Shutdown: once `close` has gone through, the sentinel sits at the back
/// of the queue, every later submission fails fast with the context
/// untouched (no silent hang, no silent execution), and the actor loop
/// terminates.
pub proof fn lemma_shutdown(s: SystemModel, op: Operation)
    requires
        spec_close(s).1 is Ok,
    ensures
        spec_close(s).0.queue == s.queue.push(Command::Close),
        spec_submit(spec_close(s).0, op).1 == Err::<usize, SubmitError>(SubmitError::Closed),
        spec_submit(spec_close(s).0, op).0 == spec_close(s).0,
        !spec_run(spec_close(s).0).running,
{
    let c = spec_close(s).0;
    assert(c.queue[c.queue.len() - 1] is Close);
    lemma_close_stops_the_loop(c);
}

/// One actor turn keeps the context well-formed.
pub proof fn lemma_step_preserves_wf(s: SystemModel)
    requires
        model_wf(s),
    ensures
        model_wf(spec_step(s)),
{
    if s.running && s.queue.len() > 0 {
        let t = spec_step(s);
        assert forall|i: int|
            0 <= i < t.queue.len() && (#[trigger] t.queue[i]) is Execute implies t.queue[i]->slot
            < t.slots.len() && t.slots[t.queue[i]->slot as int] is Waiting by {
            assert(t.queue[i] == s.queue[i + 1]);
            assert(s.queue[i + 1] is Execute);
        }
        assert forall|i: int, j: int|
            0 <= i < j < t.queue.len() && (#[trigger] t.queue[i]) is Execute && (
            #[trigger] t.queue[j]) is Execute implies t.queue[i]->slot != t.queue[j]->slot by {
            assert(t.queue[i] == s.queue[i + 1]);
            assert(t.queue[j] == s.queue[j + 1]);
        }
    }
}

} // verus!
