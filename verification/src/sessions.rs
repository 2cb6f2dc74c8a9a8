//! The sessions actor: the same actor pattern as the database instance,
//! fronting the key-value session store instead of the relational one.

use vstd::prelude::*;

use crate::QUEUE_CAPACITY;
use crate::kv::KvStore;
use crate::kv::SessionEntryModel;
use crate::kv::kv_get;
use crate::kv::kv_put;
use crate::kv::kv_remove;
use crate::kv::kv_wf;
use crate::kv::lemma_kv_put_wf;
use crate::kv::lemma_kv_remove_wf;
use crate::mailbox::ActorState;
use crate::mailbox::Command;
use crate::mailbox::Mailbox;
use crate::mailbox::SlotModel;
use crate::mailbox::SlotState;
use crate::mailbox::SubmitError;
use crate::user::User;
use crate::user::UserModel;

verus! {

/// The closed set of operations the sessions actor executes.
#[derive(Debug)]
pub enum SessionOperation {
    Get { key: String },
    Put { key: String, user: User },
    Remove { key: String },
}

/// One reply of the sessions actor.
#[derive(Debug)]
pub enum SessionReply {
    /// Reply to `Get`.
    User(Option<User>),
    /// Reply to an effect-only operation: completed.
    Done,
}

/// Mathematical image of a [`SessionReply`].
pub enum SessionReplyModel {
    User(Option<UserModel>),
    Done,
}

impl View for SessionReply {
    type V = SessionReplyModel;

    open spec fn view(&self) -> SessionReplyModel {
        match self {
            SessionReply::User(u) => SessionReplyModel::User(
                match u {
                    Some(u) => Some(u@),
                    None => None,
                },
            ),
            SessionReply::Done => SessionReplyModel::Done,
        }
    }
}

/// What one operation does to the session store, and its one reply.
pub open spec fn spec_execute_kv(entries: Seq<SessionEntryModel>, op: SessionOperation) -> (
    Seq<SessionEntryModel>,
    SessionReplyModel,
) {
    match op {
        SessionOperation::Get { key } => (entries, SessionReplyModel::User(kv_get(entries, key@))),
        SessionOperation::Put { key, user } => (
            kv_put(entries, key@, user@),
            SessionReplyModel::Done,
        ),
        SessionOperation::Remove { key } => (kv_remove(entries, key@), SessionReplyModel::Done),
    }
}

impl KvStore {
    /// Execute one operation against the confined session store: exactly
    /// [`spec_execute_kv`], one operation at a time.
    pub fn execute(&mut self, op: &SessionOperation) -> (r: SessionReply)
        ensures
            final(self)@ == spec_execute_kv(old(self)@, *op).0,
            r@ == spec_execute_kv(old(self)@, *op).1,
    {
        match op {
            SessionOperation::Get { key } => SessionReply::User(self.get(key)),
            SessionOperation::Put { key, user } => {
                self.put(key.clone(), user.clone());
                SessionReply::Done
            },
            SessionOperation::Remove { key } => {
                self.remove(key);
                SessionReply::Done
            },
        }
    }
}

/// Mathematical image of one whole sessions context.
#[verifier::ext_equal]
pub struct SessionModel {
    pub queue: Seq<Command<SessionOperation>>,
    pub slots: Seq<SlotModel<SessionReplyModel>>,
    pub closed: bool,
    pub running: bool,
    pub store: Seq<SessionEntryModel>,
}

/// Well-formedness of a sessions context: the queue respects its capacity,
/// every queued command names an allocated, still-waiting reply slot, no
/// two queued commands share a slot, and the store keys stay unique.
pub open spec fn session_wf(s: SessionModel) -> bool {
    &&& s.queue.len() <= QUEUE_CAPACITY
    &&& forall|i: int|
        0 <= i < s.queue.len() && (#[trigger] s.queue[i]) is Execute ==> s.queue[i]->slot
            < s.slots.len() && s.slots[s.queue[i]->slot as int] is Waiting
    &&& forall|i: int, j: int|
        0 <= i < j < s.queue.len() && (#[trigger] s.queue[i]) is Execute && (#[trigger] s.queue[j]) is Execute
            ==> s.queue[i]->slot != s.queue[j]->slot
    &&& kv_wf(s.store)
}

/// Submitting one operation; exactly as in the database instance.
pub open spec fn spec_session_submit(s: SessionModel, op: SessionOperation) -> (
    SessionModel,
    Result<usize, SubmitError>,
) {
    if s.closed {
        (s, Err(SubmitError::Closed))
    } else if s.queue.len() >= QUEUE_CAPACITY {
        (s, Err(SubmitError::Full))
    } else {
        (
            SessionModel {
                queue: s.queue.push(Command::Execute { op, slot: s.slots.len() as usize }),
                slots: s.slots.push(SlotModel::Waiting),
                ..s
            },
            Ok(s.slots.len() as usize),
        )
    }
}

/// Sending the shutdown sentinel; exactly as in the database instance.
pub open spec fn spec_session_close(s: SessionModel) -> (SessionModel, Result<(), SubmitError>) {
    if s.closed {
        (s, Err(SubmitError::Closed))
    } else if s.queue.len() >= QUEUE_CAPACITY {
        (s, Err(SubmitError::Full))
    } else {
        (SessionModel { queue: s.queue.push(Command::Close), closed: true, ..s }, Ok(()))
    }
}

/// One turn of the sessions actor loop.
pub open spec fn spec_session_step(s: SessionModel) -> SessionModel {
    if !s.running || s.queue.len() == 0 {
        s
    } else {
        match s.queue[0] {
            Command::Close => SessionModel { queue: s.queue.remove(0), running: false, ..s },
            Command::Execute { op, slot } => {
                let executed = spec_execute_kv(s.store, op);
                SessionModel {
                    queue: s.queue.remove(0),
                    slots: if slot < s.slots.len() {
                        s.slots.update(slot as int, SlotModel::Delivered(executed.1))
                    } else {
                        s.slots
                    },
                    store: executed.0,
                    ..s
                }
            },
        }
    }
}

/// The sessions actor loop run to quiescence.
pub open spec fn spec_session_run(s: SessionModel) -> SessionModel
    decreases s.queue.len(),
{
    if !s.running || s.queue.len() == 0 {
        s
    } else {
        spec_session_run(spec_session_step(s))
    }
}

/// Collecting a reply: the slot yields its delivered reply exactly once.
pub open spec fn spec_session_take(s: SessionModel, slot: usize) -> (
    SessionModel,
    Option<SessionReplyModel>,
) {
    if slot < s.slots.len() && s.slots[slot as int] is Delivered {
        (
            SessionModel { slots: s.slots.update(slot as int, SlotModel::Taken), ..s },
            Some(s.slots[slot as int]->Delivered_0),
        )
    } else {
        (s, None)
    }
}

/// One whole per-request sessions context: the caller-facing mailbox, the
/// actor's state, and the confined session store only the actor touches.
#[derive(Debug)]
pub struct Sessions {
    pub mailbox: Mailbox<SessionOperation, SessionReply>,
    pub state: ActorState,
    pub store: KvStore,
}

impl View for Sessions {
    type V = SessionModel;

    open spec fn view(&self) -> SessionModel {
        SessionModel {
            queue: self.mailbox.queue@,
            slots: self.mailbox.slots_model(),
            closed: self.mailbox.closed,
            running: self.state is Running,
            store: self.store@,
        }
    }
}

/// Create one sessions context around a seeded store, as each request does
/// on arrival.
pub fn sessions(store: KvStore) -> (c: Sessions)
    requires
        kv_wf(store@),
    ensures
        c.wf(),
        c@ == (SessionModel {
            queue: Seq::<Command<SessionOperation>>::empty(),
            slots: Seq::<SlotModel<SessionReplyModel>>::empty(),
            closed: false,
            running: true,
            store: store@,
        }),
{
    let c = Sessions { mailbox: Mailbox::new(QUEUE_CAPACITY), state: ActorState::Running, store };
    proof {
        assert(c@ =~= (SessionModel {
            queue: Seq::<Command<SessionOperation>>::empty(),
            slots: Seq::<SlotModel<SessionReplyModel>>::empty(),
            closed: false,
            running: true,
            store: c.store@,
        }));
    }
    c
}

impl Sessions {
    /// Well-formedness carried by every method.
    pub open spec fn wf(&self) -> bool {
        &&& session_wf(self@)
        &&& self.mailbox.queue.cap() == QUEUE_CAPACITY
    }

    /// Submit one operation, keeping the returned slot index to collect
    /// the reply.
    pub fn submit(&mut self, op: SessionOperation) -> (r: Result<usize, SubmitError>)
        requires
            old(self).wf(),
        ensures
            final(self).wf(),
            final(self)@ == spec_session_submit(old(self)@, op).0,
            r == spec_session_submit(old(self)@, op).1,
    {
        proof {
            assert(self.mailbox.wf());
        }
        let r = self.mailbox.submit(op);
        proof {
            assert(self@ =~= spec_session_submit(old(self)@, op).0);
            assert(session_wf(self@));
        }
        r
    }

    /// Collect the reply delivered for one submitted operation.
    pub fn take_reply(&mut self, slot: usize) -> (r: Option<SessionReply>)
        requires
            old(self).wf(),
        ensures
            final(self).wf(),
            final(self)@ == spec_session_take(old(self)@, slot).0,
            r is Some <==> spec_session_take(old(self)@, slot).1 is Some,
            r matches Some(v) ==> spec_session_take(old(self)@, slot).1 == Some(v@),
    {
        proof {
            assert(self.mailbox.wf());
        }
        let r = self.mailbox.take_reply(slot);
        proof {
            assert(self@ =~= spec_session_take(old(self)@, slot).0);
            assert(session_wf(self@));
        }
        r
    }

    /// Send the shutdown sentinel; afterwards every further submission is
    /// rejected outright.
    pub fn close(&mut self) -> (r: Result<(), SubmitError>)
        requires
            old(self).wf(),
        ensures
            final(self).wf(),
            final(self)@ == spec_session_close(old(self)@).0,
            r == spec_session_close(old(self)@).1,
    {
        proof {
            assert(self.mailbox.wf());
        }
        let r = self.mailbox.close();
        proof {
            assert(self@ =~= spec_session_close(old(self)@).0);
            assert(session_wf(self@));
        }
        r
    }

    /// One turn of the sessions actor loop.
    pub fn step(&mut self) -> (r: crate::database::StepOutcome)
        requires
            old(self).wf(),
        ensures
            final(self).wf(),
            final(self)@ == spec_session_step(old(self)@),
            (r == crate::database::StepOutcome::Stopped) == (!old(self)@.running || (old(
                self,
            )@.queue.len() > 0 && old(self)@.queue[0] is Close)),
            (r == crate::database::StepOutcome::Idle) == (old(self)@.running && old(
                self,
            )@.queue.len() == 0),
    {
        let ghost pre = self@;
        proof {
            lemma_session_step_preserves_wf(pre);
        }
        if !self.state.is_running() {
            return crate::database::StepOutcome::Stopped;
        }
        proof {
            assert(self.mailbox.queue.wf());
        }
        let cmd = self.mailbox.queue.pop_front();
        match cmd {
            None => {
                proof {
                    assert(self@ =~= spec_session_step(pre));
                }
                crate::database::StepOutcome::Idle
            },
            Some(Command::Close) => {
                self.state = ActorState::Stopped;
                proof {
                    assert(self@ =~= spec_session_step(pre));
                }
                crate::database::StepOutcome::Stopped
            },
            Some(Command::Execute { op, slot }) => {
                proof {
                    assert(pre.queue[0] is Execute);
                    assert(slot < self.mailbox.slots@.len());
                }
                let reply = self.store.execute(&op);
                self.mailbox.slots[slot] = SlotState::Delivered(reply);
                proof {
                    assert(self.mailbox.slots_model() =~= pre.slots.update(
                        slot as int,
                        SlotModel::Delivered(spec_execute_kv(pre.store, op).1),
                    ));
                    assert(self@ =~= spec_session_step(pre));
                }
                crate::database::StepOutcome::Executed
            },
        }
    }

    /// Drain the queue: turn the actor until it idles or `Close` stops it.
    pub fn run(&mut self)
        requires
            old(self).wf(),
        ensures
            final(self).wf(),
            final(self)@ == spec_session_run(old(self)@),
    {
        while self.state.is_running() && self.mailbox.queue.len() > 0
            invariant
                self.wf(),
                spec_session_run(self@) == spec_session_run(old(self)@),
            decreases self@.queue.len(),
        {
            self.step();
        }
        proof {
            assert(spec_session_run(self@) == self@);
        }
    }

    /// Submit a session lookup by key.
    pub fn get(&mut self, key: String) -> (r: Result<usize, SubmitError>)
        requires
            old(self).wf(),
        ensures
            final(self).wf(),
            final(self)@ == spec_session_submit(old(self)@, (SessionOperation::Get { key })).0,
            r == spec_session_submit(old(self)@, (SessionOperation::Get { key })).1,
    {
        self.submit(SessionOperation::Get { key })
    }

    /// Submit storing a user's session under a key.
    pub fn put(&mut self, key: String, user: User) -> (r: Result<usize, SubmitError>)
        requires
            old(self).wf(),
        ensures
            final(self).wf(),
            final(self)@ == spec_session_submit(old(self)@, (SessionOperation::Put { key, user })).0,
            r == spec_session_submit(old(self)@, (SessionOperation::Put { key, user })).1,
    {
        self.submit(SessionOperation::Put { key, user })
    }

    /// Submit deleting a session key.
    pub fn remove(&mut self, key: String) -> (r: Result<usize, SubmitError>)
        requires
            old(self).wf(),
        ensures
            final(self).wf(),
            final(self)@ == spec_session_submit(old(self)@, (SessionOperation::Remove { key })).0,
            r == spec_session_submit(old(self)@, (SessionOperation::Remove { key })).1,
    {
        self.submit(SessionOperation::Remove { key })
    }
}

/// One actor turn keeps the sessions context well-formed.
pub proof fn lemma_session_step_preserves_wf(s: SessionModel)
    requires
        session_wf(s),
    ensures
        session_wf(spec_session_step(s)),
{
    if s.running && s.queue.len() > 0 {
        let t = spec_session_step(s);
        assert forall|i: int|
            0 <= i < t.queue.len() && (#[trigger] t.queue[i]) is Execute implies t.queue[i]->slot
            < t.slots.len() && t.slots[t.queue[i]->slot as int] is Waiting by {
            assert(t.queue[i] == s.queue[i + 1]);
            assert(s.queue[i + 1] is Execute);
        }
        assert forall|i: int, j: int|
            0 <= i < j < t.queue.len() && (#[trigger] t.queue[i]) is Execute && (
            #[trigger] t.queue[j]) is Execute implies t.queue[i]->slot != t.queue[j]->slot by {
            assert(t.queue[i] == s.queue[i + 1]);
            assert(t.queue[j] == s.queue[j + 1]);
        }
        match s.queue[0] {
            Command::Close => {
            },
            Command::Execute { op, slot } => {
                match op {
                    SessionOperation::Get { .. } => {
                    },
                    SessionOperation::Put { key, user } => {
                        lemma_kv_put_wf(s.store, key@, user@);
                    },
                    SessionOperation::Remove { key } => {
                        lemma_kv_remove_wf(s.store, key@);
                    },
                }
            },
        }
    }
}

/// The session store after the queued commands are applied in order, front
/// to back, stopping at the first shutdown sentinel.
pub open spec fn apply_session_commands(
    entries: Seq<SessionEntryModel>,
    cmds: Seq<Command<SessionOperation>>,
) -> Seq<SessionEntryModel>
    decreases cmds.len(),
{
    if cmds.len() == 0 {
        entries
    } else {
        match cmds[0] {
            Command::Close => entries,
            Command::Execute { op, .. } => apply_session_commands(
                spec_execute_kv(entries, op).0,
                cmds.remove(0),
            ),
        }
    }
}

/// Ordering, for the sessions instance: running the actor applies the
/// queued operations to the store in queue order, one at a time, stopping
/// at the first shutdown sentinel.
pub proof fn lemma_session_run_applies_in_order(s: SessionModel)
    requires
        session_wf(s),
        s.running,
    ensures
        spec_session_run(s).store == apply_session_commands(s.store, s.queue),
    decreases s.queue.len(),
{
    if s.queue.len() == 0 {
    } else {
        lemma_session_step_preserves_wf(s);
        match s.queue[0] {
            Command::Close => {
                assert(spec_session_run(s) == spec_session_run(spec_session_step(s)));
                assert(spec_session_run(spec_session_step(s)) == spec_session_step(s));
            },
            Command::Execute { op, slot } => {
                lemma_session_run_applies_in_order(spec_session_step(s));
                assert(spec_session_run(s) == spec_session_run(spec_session_step(s)));
            },
        }
    }
}

/// No second reply, for the sessions instance: a slot that is no longer
/// waiting is never written again.
pub proof fn lemma_session_no_second_reply(s: SessionModel, k: int)
    requires
        session_wf(s),
        0 <= k < s.slots.len(),
        !(s.slots[k] is Waiting),
    ensures
        spec_session_run(s).slots.len() == s.slots.len(),
        spec_session_run(s).slots[k] == s.slots[k],
    decreases s.queue.len(),
{
    if !s.running || s.queue.len() == 0 {
    } else {
        lemma_session_step_preserves_wf(s);
        match s.queue[0] {
            Command::Close => {
                lemma_session_no_second_reply(spec_session_step(s), k);
            },
            Command::Execute { op, slot } => {
                assert(s.slots[slot as int] is Waiting);
                lemma_session_no_second_reply(spec_session_step(s), k);
            },
        }
    }
}

/// Exactly one reply, for the sessions instance: an operation queued ahead
/// of any shutdown sentinel is waiting before the run and delivered — once
/// — after it.
pub proof fn lemma_session_exactly_one_reply(s: SessionModel, i: int)
    requires
        session_wf(s),
        s.running,
        0 <= i < s.queue.len(),
        s.queue[i] is Execute,
        forall|j: int| 0 <= j <= i ==> !((#[trigger] s.queue[j]) is Close),
    ensures
        s.slots[s.queue[i]->slot as int] is Waiting,
        spec_session_run(s).slots.len() == s.slots.len(),
        spec_session_run(s).slots[s.queue[i]->slot as int] is Delivered,
    decreases s.queue.len(),
{
    let slot = s.queue[i]->slot;
    lemma_session_step_preserves_wf(s);
    let t = spec_session_step(s);
    if i == 0 {
        assert(t.slots[slot as int] is Delivered);
        lemma_session_no_second_reply(t, slot as int);
        assert(spec_session_run(s) == spec_session_run(t));
    } else {
        assert(!(s.queue[0] is Close));
        assert(s.queue[0] is Execute);
        assert(s.queue[0]->slot != slot);
        assert(t.queue[i - 1] == s.queue[i]);
        assert forall|j: int| 0 <= j <= i - 1 implies !((#[trigger] t.queue[j]) is Close) by {
            assert(t.queue[j] == s.queue[j + 1]);
        }
        lemma_session_exactly_one_reply(t, i - 1);
        assert(spec_session_run(s) == spec_session_run(t));
    }
}

/// Operations still queued behind the shutdown sentinel are abandoned, for
/// the sessions instance too: the run stops at the sentinel and their
/// reply slots stay waiting forever.
pub proof fn lemma_session_abandoned_behind_close(s: SessionModel, c: int, i: int)
    requires
        session_wf(s),
        0 <= c < i < s.queue.len(),
        s.queue[c] is Close,
        s.queue[i] is Execute,
    ensures
        spec_session_run(s).slots.len() == s.slots.len(),
        spec_session_run(s).slots[s.queue[i]->slot as int] is Waiting,
    decreases s.queue.len(),
{
    let slot = s.queue[i]->slot;
    lemma_session_step_preserves_wf(s);
    if !s.running {
    } else {
        let t = spec_session_step(s);
        if s.queue[0] is Close {
            assert(!t.running);
            assert(spec_session_run(t) == t);
            assert(t.slots == s.slots);
        } else {
            assert(s.queue[0] is Execute);
            assert(s.queue[0]->slot != slot);
            assert(t.queue[c - 1] == s.queue[c]);
            assert(t.queue[i - 1] == s.queue[i]);
            if c == 0 {
                assert(false);
            } else {
                lemma_session_abandoned_behind_close(t, c - 1, i - 1);
            }
        }
        assert(spec_session_run(s) == spec_session_run(t));
    }
}

/// At most one writer, for the sessions instance: nothing the callers do
/// ever touches the session store, and one actor turn applies at most the
/// single operation at the front of the queue.
pub proof fn lemma_session_single_writer(s: SessionModel, op: SessionOperation, slot: usize)
    ensures
        spec_session_submit(s, op).0.store == s.store,
        spec_session_close(s).0.store == s.store,
        spec_session_take(s, slot).0.store == s.store,
        s.running && s.queue.len() > 0 && s.queue[0] is Execute ==> spec_session_step(s).store
            == spec_execute_kv(s.store, s.queue[0]->op).0,
        !(s.running && s.queue.len() > 0 && s.queue[0] is Execute) ==> spec_session_step(s).store
            == s.store,
{
}

/// Backpressure, for the sessions instance: a submission against a full
/// queue is turned away with the context unchanged, and goes through once
/// the actor has dequeued a single command.
pub proof fn lemma_session_backpressure(s: SessionModel, op: SessionOperation)
    requires
        session_wf(s),
        !s.closed,
        s.running,
        s.queue.len() == QUEUE_CAPACITY,
    ensures
        spec_session_submit(s, op).1 == Err::<usize, SubmitError>(SubmitError::Full),
        spec_session_submit(s, op).0 == s,
        spec_session_submit(spec_session_step(s), op).1 is Ok,
{
    assert(spec_session_step(s).queue.len() < QUEUE_CAPACITY);
}

/// The sessions loop terminates once a shutdown sentinel sits anywhere in
/// the queue.
pub proof fn lemma_session_close_stops_the_loop(s: SessionModel)
    requires
        exists|i: int| 0 <= i < s.queue.len() && (#[trigger] s.queue[i]) is Close,
    ensures
        !spec_session_run(s).running,
    decreases s.queue.len(),
{
    if !s.running {
    } else {
        let i = choose|i: int| 0 <= i < s.queue.len() && (#[trigger] s.queue[i]) is Close;
        let t = spec_session_step(s);
        if s.queue[0] is Close {
            assert(!t.running);
            assert(spec_session_run(t) == t);
        } else {
            assert(i > 0);
            assert(t.queue[i - 1] == s.queue[i]);
            assert(0 <= i - 1 < t.queue.len() && t.queue[i - 1] is Close);
            lemma_session_close_stops_the_loop(t);
        }
        assert(spec_session_run(s) == spec_session_run(t));
    }
}

/// Shutdown, for the sessions instance: after `close` goes through, later
/// submissions fail fast with the context untouched, and the loop
/// terminates.
pub proof fn lemma_session_shutdown(s: SessionModel, op: SessionOperation)
    requires
        spec_session_close(s).1 is Ok,
    ensures
        spec_session_close(s).0.queue == s.queue.push(Command::Close),
        spec_session_submit(spec_session_close(s).0, op).1 == Err::<usize, SubmitError>(
            SubmitError::Closed,
        ),
        spec_session_submit(spec_session_close(s).0, op).0 == spec_session_close(s).0,
        !spec_session_run(spec_session_close(s).0).running,
{
    let c = spec_session_close(s).0;
    assert(c.queue[c.queue.len() - 1] is Close);
    lemma_session_close_stops_the_loop(c);
}

} // verus!
