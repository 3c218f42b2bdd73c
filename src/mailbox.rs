//! The bounded inbound queue of an endpoint, and the fan-out of a plan of actions.
use vstd::prelude::*;

use crate::client::{Action, ActionModel, actions_view};
use crate::message::{Message, MessageModel};

verus! {

/// How many messages an endpoint's inbound queue holds before senders wait.
pub const INBOUND_CAPACITY: usize = 100;

/// What a queue holds, oldest first, and how many it may hold.
pub ghost struct MailboxModel {
    pub items: Seq<MessageModel>,
    pub capacity: nat,
}

/// The queue after offering `m`: `None` where it is full, the message then staying
/// with its sender.
pub open spec fn offered(q: MailboxModel, m: MessageModel) -> Option<MailboxModel> {
    if q.items.len() >= q.capacity {
        None
    } else {
        Some(MailboxModel { items: q.items.push(m), capacity: q.capacity })
    }
}

/// The oldest message and the queue without it: `None` where it is empty.
pub open spec fn taken(q: MailboxModel) -> Option<(MessageModel, MailboxModel)> {
    if q.items.len() == 0 {
        None
    } else {
        Some((q.items[0], MailboxModel { items: q.items.drop_first(), capacity: q.capacity }))
    }
}

/// A bounded first-in first-out queue of messages. A full queue refuses an offer
/// and hands the message back, so that the sender waits and retries: nothing is
/// dropped.
#[derive(Debug)]
pub struct Mailbox {
    items: Vec<Message>,
    capacity: usize,
}

impl View for Mailbox {
    type V = MailboxModel;

    closed spec fn view(&self) -> MailboxModel {
        MailboxModel {
            items: self.items@.map_values(|m: Message| m@),
            capacity: self.capacity as nat,
        }
    }
}

impl Mailbox {
    /// Holds at most `capacity` messages, and at least one.
    pub open spec fn wf(&self) -> bool {
        &&& 0 < self@.capacity
        &&& self@.items.len() <= self@.capacity
    }

    /// An empty queue of the given capacity.
    pub fn new(capacity: usize) -> (r: Mailbox)
        requires
            capacity > 0,
        ensures
            r.wf(),
            r@ == (MailboxModel { items: Seq::empty(), capacity: capacity as nat }),
    {
        let r = Mailbox { items: Vec::new(), capacity };
        assert(r@.items =~= Seq::<MessageModel>::empty());
        r
    }

    /// An empty queue of the endpoints' inbound capacity.
    pub fn inbound() -> (r: Mailbox)
        ensures
            r.wf(),
            r@ == (MailboxModel { items: Seq::empty(), capacity: INBOUND_CAPACITY as nat }),
    {
        Mailbox::new(INBOUND_CAPACITY)
    }

    /// How many messages wait.
    pub fn len(&self) -> (r: usize)
        ensures
            r == self@.items.len(),
    {
        self.items.len()
    }

    /// How many messages the queue may hold.
    pub fn capacity(&self) -> (r: usize)
        ensures
            r == self@.capacity,
    {
        self.capacity
    }

    /// Whether an offer would be refused.
    pub fn is_full(&self) -> (r: bool)
        ensures
            r == (self@.items.len() >= self@.capacity),
    {
        self.items.len() >= self.capacity
    }

    /// Appends the message unless the queue is full; a refused message comes back
    /// unchanged and the queue stays as it was.
    pub fn offer(&mut self, m: Message) -> (r: Result<(), Message>)
        requires
            old(self).wf(),
        ensures
            final(self).wf(),
            match r {
                Ok(_) => offered(old(self)@, m@) == Some(final(self)@),
                Err(back) => offered(old(self)@, m@) is None && back@ == m@ && final(self)@
                    == old(self)@,
            },
    {
        if self.items.len() >= self.capacity {
            return Err(m);
        }
        let ghost before = self.items@;
        self.items.push(m);
        assert(self@.items =~= before.map_values(|x: Message| x@).push(m@));
        Ok(())
    }

    /// Removes and returns the oldest message, if any.
    pub fn take(&mut self) -> (r: Option<Message>)
        requires
            old(self).wf(),
        ensures
            final(self).wf(),
            match r {
                Some(m) => taken(old(self)@) == Some((m@, final(self)@)),
                None => taken(old(self)@) is None && final(self)@ == old(self)@,
            },
    {
        if self.items.len() == 0 {
            return None;
        }
        let ghost before = self.items@;
        let m = self.items.remove(0);
        assert(self@.items =~= before.map_values(|x: Message| x@).drop_first());
        Some(m)
    }
}

/// Saturation and draining: a full queue refuses every offer and keeps what it
/// holds; once one message has been taken from it, the same offer is accepted and
/// the message joins the end of the queue.
pub proof fn lemma_backpressure(q: MailboxModel, m: MessageModel)
    requires
        q.capacity > 0,
        q.items.len() == q.capacity,
    ensures
        offered(q, m) is None,
        taken(q) matches Some((first, rest)) && first == q.items[0] && offered(rest, m) == Some(
            MailboxModel { items: q.items.drop_first().push(m), capacity: q.capacity },
        ),
{
}

/// First in, first out: after an offer to a queue with room, the next take returns
/// the oldest message held before the offer, or the offered one where the queue
/// was empty.
pub proof fn lemma_fifo(q: MailboxModel, m: MessageModel)
    requires
        q.items.len() < q.capacity,
    ensures
        offered(q, m) matches Some(p) && taken(p) matches Some((first, _)) && first == (if q.items.len()
            == 0 {
            m
        } else {
            q.items[0]
        }),
{
}

/// The progress of carrying out a plan of actions one after the other. A failed
/// action is recorded and the next one is still carried out.
#[derive(Debug)]
pub struct Delivery {
    actions: Vec<Action>,
    next: usize,
    failed: Vec<usize>,
}

impl Delivery {
    /// The plan.
    pub closed spec fn spec_actions(&self) -> Seq<ActionModel> {
        actions_view(self.actions@)
    }

    /// The position of the next action to carry out.
    pub closed spec fn spec_next(&self) -> nat {
        self.next as nat
    }

    /// The positions of the actions that failed, in order.
    pub closed spec fn spec_failed(&self) -> Seq<usize> {
        self.failed@
    }

    /// No action is carried out twice or skipped.
    pub closed spec fn wf(&self) -> bool {
        self.next <= self.actions@.len()
    }

    /// Starts carrying out a plan at its first action.
    pub fn new(actions: Vec<Action>) -> (r: Delivery)
        ensures
            r.wf(),
            r.spec_actions() == actions_view(actions@),
            r.spec_next() == 0,
            r.spec_failed().len() == 0,
    {
        Delivery { actions, next: 0, failed: Vec::new() }
    }

    /// The action to carry out now, if any is left.
    pub fn current(&self) -> (r: Option<&Action>)
        requires
            self.wf(),
        ensures
            match r {
                Some(a) => self.spec_next() < self.spec_actions().len() && a@
                    == self.spec_actions()[self.spec_next() as int],
                None => self.spec_next() == self.spec_actions().len(),
            },
    {
        if self.next < self.actions.len() {
            Some(&self.actions[self.next])
        } else {
            None
        }
    }

    /// Records how the current action went and moves to the next one, whether it
    /// failed or not.
    pub fn record(&mut self, succeeded: bool)
        requires
            old(self).wf(),
            old(self).spec_next() < old(self).spec_actions().len(),
        ensures
            final(self).wf(),
            final(self).spec_actions() == old(self).spec_actions(),
            final(self).spec_next() == old(self).spec_next() + 1,
            final(self).spec_failed() == if succeeded {
                old(self).spec_failed()
            } else {
                old(self).spec_failed().push(old(self).spec_next() as usize)
            },
    {
        let n = self.actions.len();
        assert(self.next < n);
        if !succeeded {
            self.failed.push(self.next);
        }
        self.next = self.next + 1;
    }

    /// Whether every action has been carried out.
    pub fn is_done(&self) -> (r: bool)
        requires
            self.wf(),
        ensures
            r == (self.spec_next() == self.spec_actions().len()),
    {
        self.next >= self.actions.len()
    }

    /// The positions of the actions that failed, in order.
    pub fn failures(&self) -> (r: &Vec<usize>)
        ensures
            r@ == self.spec_failed(),
    {
        &self.failed
    }
}

} // verus!
