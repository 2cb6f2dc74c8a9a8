//! The generic half of the actor pattern: a bounded command queue paired
//! with one single-use reply slot per submitted operation.
//!
//! A command couples one operation with the delivery end of its reply
//! channel; a distinguished `Close` command carries no payload.  The mailbox
//! models both ends of the channel pair: producers append commands and later
//! collect their replies, the single consumer pops commands in arrival order
//! and delivers exactly one reply into the slot each command names.

use vstd::prelude::*;

use crate::queue::BoundedQueue;

verus! {

/// One queued command: either an operation together with the index of its
/// reply slot, or the shutdown sentinel.
#[derive(Debug)]
pub enum Command<O> {
    Execute { op: O, slot: usize },
    Close,
}

/// The lifecycle of one reply channel: at most one value is ever delivered
/// into it, and the caller collects that value at most once.
#[derive(Debug)]
pub enum SlotState<R> {
    /// The operation is queued or executing; nothing delivered yet.
    Waiting,
    /// The actor delivered the reply; the caller has not collected it.
    Delivered(R),
    /// The caller collected the reply.
    Taken,
}

/// Mathematical image of a reply slot, with the reply abstracted to its view.
pub enum SlotModel<RV> {
    Waiting,
    Delivered(RV),
    Taken,
}

impl<R: View> View for SlotState<R> {
    type V = SlotModel<R::V>;

    open spec fn view(&self) -> SlotModel<R::V> {
        match self {
            SlotState::Waiting => SlotModel::Waiting,
            SlotState::Delivered(r) => SlotModel::Delivered(r@),
            SlotState::Taken => SlotModel::Taken,
        }
    }
}

/// Why a submission was turned away.  `Full` is backpressure: the caller
/// suspends and retries; nothing was dropped.  `Closed` is lifecycle misuse
/// (submitting after `close`), surfaced loudly rather than hanging.
#[derive(Clone, Copy, Debug, PartialEq, Eq, Structural)]
pub enum SubmitError {
    Full,
    Closed,
}

/// The two states of an actor loop: it runs until it dequeues `Close`, and
/// the stopped state is terminal.
#[derive(Clone, Copy, Debug, PartialEq, Eq, Structural)]
pub enum ActorState {
    Running,
    Stopped,
}

impl ActorState {
    /// Whether the actor loop is still consuming commands.
    pub fn is_running(&self) -> (b: bool)
        ensures
            b == (self is Running),
    {
        matches!(self, ActorState::Running)
    }
}

/// The caller-facing half shared by every actor instance: the bounded
/// command queue plus the table of reply slots, and the flag that records
/// that `Close` has been sent.
#[derive(Debug)]
pub struct Mailbox<O, R> {
    pub queue: BoundedQueue<Command<O>>,
    pub slots: Vec<SlotState<R>>,
    pub closed: bool,
}

impl<O, R: View> Mailbox<O, R> {
    /// The reply slots, abstracted to their mathematical image.
    pub open spec fn slots_model(&self) -> Seq<SlotModel<R::V>> {
        Seq::new(self.slots@.len(), |i: int| self.slots@[i]@)
    }

    /// Well-formedness: the queue respects its capacity, every queued
    /// command names an allocated slot that is still waiting, and no two
    /// queued commands share a slot.
    pub open spec fn wf(&self) -> bool {
        &&& self.queue.wf()
        &&& forall|i: int|
            0 <= i < self.queue@.len() && (#[trigger] self.queue@[i]) is Execute
                ==> self.queue@[i]->slot < self.slots@.len() && self.slots_model()[self.queue@[i]->slot as int] is Waiting
        &&& forall|i: int, j: int|
            0 <= i < j < self.queue@.len() && (#[trigger] self.queue@[i]) is Execute
                && (#[trigger] self.queue@[j]) is Execute
                ==> self.queue@[i]->slot != self.queue@[j]->slot
    }

    pub fn new(capacity: usize) -> (m: Self)
        ensures
            m.queue@ == Seq::<Command<O>>::empty(),
            m.queue.cap() == capacity,
            m.slots_model() == Seq::<SlotModel<R::V>>::empty(),
            !m.closed,
            m.wf(),
    {
        let m = Mailbox { queue: BoundedQueue::new(capacity), slots: Vec::new(), closed: false };
        proof {
            assert(m.slots_model() =~= Seq::<SlotModel<R::V>>::empty());
        }
        m
    }

    /// Submit one operation: allocate a fresh reply slot, pair it with the
    /// operation and append the command at the back of the queue.  A full
    /// queue turns the caller away to retry (backpressure, nothing dropped);
    /// a mailbox whose `close` was already called rejects the submission
    /// outright.
    pub fn submit(&mut self, op: O) -> (r: Result<usize, SubmitError>)
        requires
            old(self).wf(),
        ensures
            final(self).wf(),
            final(self).queue.cap() == old(self).queue.cap(),
            final(self).closed == old(self).closed,
            old(self).closed ==> {
                &&& r == Err::<usize, SubmitError>(SubmitError::Closed)
                &&& final(self).queue@ == old(self).queue@
                &&& final(self).slots_model() == old(self).slots_model()
            },
            !old(self).closed && old(self).queue@.len() >= old(self).queue.cap() ==> {
                &&& r == Err::<usize, SubmitError>(SubmitError::Full)
                &&& final(self).queue@ == old(self).queue@
                &&& final(self).slots_model() == old(self).slots_model()
            },
            !old(self).closed && old(self).queue@.len() < old(self).queue.cap() ==> {
                &&& r == Ok::<usize, SubmitError>(old(self).slots@.len() as usize)
                &&& final(self).slots_model() == old(self).slots_model().push(SlotModel::Waiting)
                &&& final(self).queue@ == old(self).queue@.push(
                    Command::Execute { op, slot: old(self).slots@.len() as usize },
                )
            },
    {
        if self.closed {
            return Err(SubmitError::Closed);
        }
        if self.queue.is_full() {
            return Err(SubmitError::Full);
        }
        let slot = self.slots.len();
        self.slots.push(SlotState::Waiting);
        let pushed = self.queue.try_push(Command::Execute { op, slot });
        proof {
            assert(pushed is Ok);
            assert(final(self).slots_model() =~= old(self).slots_model().push(
                SlotModel::Waiting,
            ));
        }
        match pushed {
            Ok(()) => Ok(slot),
            Err(_) => Err(SubmitError::Full),
        }
    }

    /// Send the shutdown sentinel.  Succeeds at most once; like any command
    /// it needs room in the queue, and a second call is lifecycle misuse.
    pub fn close(&mut self) -> (r: Result<(), SubmitError>)
        requires
            old(self).wf(),
        ensures
            final(self).wf(),
            final(self).queue.cap() == old(self).queue.cap(),
            final(self).slots_model() == old(self).slots_model(),
            old(self).closed ==> {
                &&& r == Err::<(), SubmitError>(SubmitError::Closed)
                &&& final(self).queue@ == old(self).queue@
                &&& final(self).closed
            },
            !old(self).closed && old(self).queue@.len() >= old(self).queue.cap() ==> {
                &&& r == Err::<(), SubmitError>(SubmitError::Full)
                &&& final(self).queue@ == old(self).queue@
                &&& !final(self).closed
            },
            !old(self).closed && old(self).queue@.len() < old(self).queue.cap() ==> {
                &&& r == Ok::<(), SubmitError>(())
                &&& final(self).queue@ == old(self).queue@.push(Command::Close)
                &&& final(self).closed
            },
    {
        if self.closed {
            return Err(SubmitError::Closed);
        }
        match self.queue.try_push(Command::Close) {
            Ok(()) => {
                self.closed = true;
                Ok(())
            },
            Err(_) => Err(SubmitError::Full),
        }
    }

    /// Collect the reply delivered into one slot.  Yields a value exactly
    /// once per slot: before delivery and after collection it returns
    /// `None`, and the slot moves to `Taken` when the value is handed out.
    pub fn take_reply(&mut self, slot: usize) -> (r: Option<R>)
        requires
            old(self).wf(),
        ensures
            final(self).wf(),
            final(self).queue.cap() == old(self).queue.cap(),
            final(self).queue@ == old(self).queue@,
            final(self).closed == old(self).closed,
            (slot < old(self).slots@.len() && old(self).slots_model()[slot as int] is Delivered)
                ==> {
                &&& r matches Some(v) && v@ == old(self).slots_model()[slot as int]->Delivered_0
                &&& final(self).slots_model() == old(self).slots_model().update(
                    slot as int,
                    SlotModel::Taken,
                )
            },
            !(slot < old(self).slots@.len() && old(self).slots_model()[slot as int] is Delivered)
                ==> {
                &&& r is None
                &&& final(self).slots_model() == old(self).slots_model()
            },
    {
        if slot >= self.slots.len() {
            return None;
        }
        let delivered = matches!(&self.slots[slot], SlotState::Delivered(_));
        if !delivered {
            return None;
        }
        let mut taken = SlotState::Taken;
        core::mem::swap(&mut taken, &mut self.slots[slot]);
        proof {
            assert(final(self).slots_model() =~= old(self).slots_model().update(
                slot as int,
                SlotModel::Taken,
            ));
        }
        match taken {
            SlotState::Delivered(r) => Some(r),
            _ => None,
        }
    }
}

} // verus!
