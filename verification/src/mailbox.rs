//! Bounded first-in first-out mailboxes between tasks.
//!
//! A mailbox never drops a message: a message that does not fit is handed
//! back to its producer, which has to wait until the consumer made room.

use std::collections::VecDeque;
use vstd::prelude::*;

verus! {

/// A mailbox as contracts speak of it: the waiting messages, oldest first,
/// and the number of messages that fit.
pub struct MailboxView<T> {
    pub messages: Seq<T>,
    pub capacity: nat,
}

impl<T> MailboxView<T> {
    /// A mailbox never holds more than fits.
    pub open spec fn wf(self) -> bool {
        self.messages.len() <= self.capacity
    }

    /// An empty mailbox for `capacity` messages.
    pub open spec fn empty(capacity: nat) -> MailboxView<T> {
        MailboxView { messages: Seq::empty(), capacity }
    }

    /// No further message fits: a producer has to wait.
    pub open spec fn is_full(self) -> bool {
        self.messages.len() >= self.capacity
    }

    /// The mailbox after a producer offered `message`: it joins the end of
    /// the queue if it fits, and else the mailbox stays as it is.
    pub open spec fn sent(self, message: T) -> MailboxView<T> {
        if self.is_full() {
            self
        } else {
            MailboxView { messages: self.messages.push(message), ..self }
        }
    }

    /// The mailbox after the consumer took the oldest message, if there was one.
    pub open spec fn received(self) -> MailboxView<T> {
        if self.messages.len() > 0 {
            MailboxView { messages: self.messages.drop_first(), ..self }
        } else {
            self
        }
    }

    /// The mailbox after a producer offered each of `messages` in turn.
    pub open spec fn sent_all(self, messages: Seq<T>) -> MailboxView<T>
        decreases messages.len(),
    {
        if messages.len() == 0 {
            self
        } else {
            self.sent_all(messages.drop_last()).sent(messages.last())
        }
    }
}

/// A bounded queue of messages for one consuming task.
pub struct Mailbox<T> {
    queue: VecDeque<T>,
    capacity: usize,
}

impl<T> View for Mailbox<T> {
    type V = MailboxView<T>;

    closed spec fn view(&self) -> MailboxView<T> {
        MailboxView { messages: self.queue@, capacity: self.capacity as nat }
    }
}

impl<T> Mailbox<T> {
    /// An empty mailbox in which `capacity` messages fit.
    pub fn new(capacity: usize) -> (m: Mailbox<T>)
        ensures
            m@ == MailboxView::<T>::empty(capacity as nat),
            m@.wf(),
    {
        Mailbox { queue: VecDeque::new(), capacity }
    }

    /// Number of messages that fit.
    pub fn capacity(&self) -> (c: usize)
        ensures
            c == self@.capacity,
    {
        self.capacity
    }

    /// Number of waiting messages.
    pub fn len(&self) -> (n: usize)
        ensures
            n == self@.messages.len(),
    {
        self.queue.len()
    }

    /// Whether no message is waiting.
    pub fn is_empty(&self) -> (b: bool)
        ensures
            b == (self@.messages.len() == 0),
    {
        self.queue.len() == 0
    }

    /// Whether a producer would have to wait.
    pub fn is_full(&self) -> (b: bool)
        ensures
            b == self@.is_full(),
    {
        self.queue.len() >= self.capacity
    }

    /// Offers a message. A full mailbox hands it back unchanged and stays as
    /// it is; the producer waits for room and offers it again.
    pub fn try_send(&mut self, message: T) -> (r: Result<(), T>)
        ensures
            final(self)@ == old(self)@.sent(message),
            r == if old(self)@.is_full() {
                Err::<(), T>(message)
            } else {
                Ok::<(), T>(())
            },
            old(self)@.wf() ==> final(self)@.wf(),
    {
        if self.queue.len() >= self.capacity {
            Err(message)
        } else {
            self.queue.push_back(message);
            Ok(())
        }
    }

    /// Takes the oldest waiting message, or `None` from an empty mailbox.
    pub fn try_recv(&mut self) -> (r: Option<T>)
        ensures
            final(self)@ == old(self)@.received(),
            r == if old(self)@.messages.len() > 0 {
                Some(old(self)@.messages[0])
            } else {
                None::<T>
            },
            old(self)@.wf() ==> final(self)@.wf(),
    {
        self.queue.pop_front()
    }
}

/// Offering messages to an empty mailbox queues them in the order of the
/// offers, as long as they fit.
pub proof fn lemma_sends_that_fit<T>(capacity: nat, messages: Seq<T>)
    requires
        messages.len() <= capacity,
    ensures
        MailboxView::<T>::empty(capacity).sent_all(messages) == (MailboxView {
            messages,
            capacity,
        }),
    decreases messages.len(),
{
    if messages.len() == 0 {
        assert(messages =~= Seq::empty());
    } else {
        lemma_sends_that_fit(capacity, messages.drop_last());
        assert(messages.drop_last().push(messages.last()) =~= messages);
    }
}

/// An empty mailbox of a given capacity takes exactly that many messages.
/// The one after them is refused and changes nothing, until the consumer
/// takes a message: then it is taken in, behind the others.
pub proof fn lemma_capacity_is_exact<T>(capacity: nat, messages: Seq<T>, extra: T)
    requires
        messages.len() == capacity,
    ensures
        forall|n: int|
            0 <= n < capacity ==> !(#[trigger] MailboxView::<T>::empty(capacity).sent_all(
                messages.take(n),
            )).is_full(),
        MailboxView::<T>::empty(capacity).sent_all(messages).messages == messages,
        MailboxView::<T>::empty(capacity).sent_all(messages).is_full(),
        MailboxView::<T>::empty(capacity).sent_all(messages).sent(extra)
            == MailboxView::<T>::empty(capacity).sent_all(messages),
        capacity > 0 ==> MailboxView::<T>::empty(capacity).sent_all(
            messages,
        ).received().sent(extra).messages == messages.drop_first().push(extra),
{
    lemma_sends_that_fit(capacity, messages);
    assert forall|n: int| 0 <= n < capacity implies !(#[trigger] MailboxView::<T>::empty(
        capacity,
    ).sent_all(messages.take(n))).is_full() by {
        lemma_sends_that_fit(capacity, messages.take(n));
    }
}

/// Messages that fit join the queue behind those that wait already, in the
/// order in which they were offered.
pub proof fn lemma_sends_keep_their_order<T>(m: MailboxView<T>, messages: Seq<T>)
    requires
        m.messages.len() + messages.len() <= m.capacity,
    ensures
        m.sent_all(messages) == (MailboxView { messages: m.messages + messages, ..m }),
    decreases messages.len(),
{
    if messages.len() > 0 {
        lemma_sends_keep_their_order(m, messages.drop_last());
        assert((m.messages + messages.drop_last()).push(messages.last()) =~= m.messages
            + messages);
    }
}

/// The mailbox after the consumer took `count` messages.
pub open spec fn received_n<T>(m: MailboxView<T>, count: nat) -> MailboxView<T>
    decreases count,
{
    if count == 0 {
        m
    } else {
        received_n(m, (count - 1) as nat).received()
    }
}

/// Messages leave a mailbox in the order in which they came: after `count`
/// takes the consumer has had the `count` oldest messages, each take gave
/// the oldest that waited then, and the others wait in their order.
pub proof fn lemma_first_in_first_out<T>(m: MailboxView<T>, count: nat)
    requires
        count <= m.messages.len(),
    ensures
        received_n(m, count) == (MailboxView { messages: m.messages.skip(count as int), ..m }),
        count < m.messages.len() ==> received_n(m, count).messages[0] == m.messages[count as int],
    decreases count,
{
    if count == 0 {
        assert(m.messages.skip(0) =~= m.messages);
    } else {
        lemma_first_in_first_out(m, (count - 1) as nat);
        assert(m.messages.skip(count - 1).drop_first() =~= m.messages.skip(count as int));
    }
}

} // verus!
