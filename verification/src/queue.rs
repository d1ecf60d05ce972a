//! A queue for incoming WebSocket connections. See [`ConnectionQueue`].

use std::collections::VecDeque;

use futures::channel::oneshot::{Receiver, Sender};
use vstd::prelude::*;

use crate::channel;

verus! {

/// A type that can be `await`ed to be notified of when a ticket in the queue is now being served.
pub type TicketNotifier = Receiver<()>;

/// An error while serving a ticket.
#[derive(Clone, Copy, Debug, PartialEq, Eq, Structural)]
pub enum Error {
    /// An attempt was made to serve a ticket that was already served.
    TicketAlreadyServed,
    /// A ticket's notifier was dropped before the ticket was served.
    TicketAbandoned,
}

/// A ticket used to signal the next connection in line to proceed.
pub struct ConnectionTicket {
    /// The ticket's unique ID.
    id: usize,
    /// The channel to send the signal on, or `None` if it was already sent.
    sender: Option<Sender<()>>,
}

impl ConnectionTicket {
    /// The ticket's ID.
    pub closed spec fn ticket_id(self) -> usize {
        self.id
    }

    /// Whether the ticket's signal has been used up.
    pub closed spec fn served(self) -> bool {
        self.sender is None
    }

    /// Whether serving the ticket will signal `notifier`.
    pub closed spec fn notifies(self, notifier: TicketNotifier) -> bool {
        self.sender matches Some(sender) && channel::connected(sender, notifier)
    }

    /// Whether the ticket's signal was delivered when the ticket was served: it is not if the
    /// ticket was abandoned.
    pub closed spec fn delivered(self) -> bool {
        self.sender matches Some(sender) && channel::signalled(sender)
    }

    /// Creates a new `ConnectionTicket` and returns the ticket and its corresponding
    /// [`TicketNotifier`], which can be `await`ed to be notified when the ticket is ready to be
    /// served.
    pub fn new(id: usize) -> (result: (Self, TicketNotifier))
        ensures
            result.0.ticket_id() == id,
            !result.0.served(),
            result.0.notifies(result.1),
            channel::heard(result.1) == Seq::<channel::TicketSignal>::empty(),
    {
        let (tx, rx) = channel::signal_channel();

        let ticket = ConnectionTicket { id, sender: Some(tx) };

        (ticket, rx)
    }

    /// Tries to serve this ticket. Returns `Ok` if it was served successfully, or `Err` if it has
    /// already been served or its notifier was dropped. Whether the signal of an unserved ticket is
    /// delivered is up to the holder of the notifier; see [`delivery_result`].
    pub fn try_serve(&mut self) -> (result: Result<(), Error>)
        ensures
            final(self).ticket_id() == old(self).ticket_id(),
            final(self).served(),
            result == (if old(self).served() {
                Err::<(), Error>(Error::TicketAlreadyServed)
            } else if old(self).delivered() {
                Ok(())
            } else {
                Err(Error::TicketAbandoned)
            }),
    {
        match self.sender.take() {
            None => Err(Error::TicketAlreadyServed),
            Some(sender) => delivery_result(channel::send_signal(sender)),
        }
    }

    /// Returns the ID of this `ConnectionTicket`.
    pub fn id(&self) -> (id: usize)
        ensures
            id == self.ticket_id(),
    {
        self.id
    }
}

/// Returns what serving a ticket comes to, given the outcome of sending its signal.
pub fn delivery_result(sent: Result<(), ()>) -> (result: Result<(), Error>)
    ensures
        sent is Ok ==> result == Ok::<(), Error>(()),
        sent is Err ==> result == Err::<(), Error>(Error::TicketAbandoned),
{
    match sent {
        Ok(()) => Ok(()),
        Err(()) => Err(Error::TicketAbandoned),
    }
}

/// A ticket notifies whoever holds the receiving end of its channel.
pub(crate) proof fn lemma_same_notifier(one: TicketNotifier, other: TicketNotifier)
    requires
        forall|sender: Sender<()>|
            #![trigger channel::connected(sender, one)]
            #![trigger channel::connected(sender, other)]
            channel::connected(sender, one) == channel::connected(sender, other),
    ensures
        forall|ticket: ConnectionTicket|
            #![trigger ticket.notifies(one)]
            #![trigger ticket.notifies(other)]
            ticket.notifies(one) == ticket.notifies(other),
{
}

/// A ticket whose notifier has found the signal was served and not abandoned.
pub(crate) proof fn lemma_signal_was_delivered(notifier: TicketNotifier)
    requires
        forall|sender: Sender<()>| #[trigger]
            channel::connected(sender, notifier) ==> channel::signalled(sender),
    ensures
        forall|ticket: ConnectionTicket| #[trigger]
            ticket.notifies(notifier) ==> ticket.delivered(),
{
}

/// The tickets are in the order in which they were handed out, and none but the first has been
/// served.
pub open spec fn well_ordered(tickets: Seq<ConnectionTicket>) -> bool {
    &&& forall|i: int, j: int|
        0 <= i < j < tickets.len() ==> (#[trigger] tickets[i]).ticket_id() < (
        #[trigger] tickets[j]).ticket_id()
    &&& forall|i: int| 0 < i < tickets.len() ==> !(#[trigger] tickets[i]).served()
}

/// Whether a ticket with the given ID is among `tickets`.
pub open spec fn has_ticket(tickets: Seq<ConnectionTicket>, id: usize) -> bool {
    exists|i: int| 0 <= i < tickets.len() && (#[trigger] tickets[i]).ticket_id() == id
}

/// `after` is `before` without the ticket that has the given ID.
pub open spec fn removed(
    before: Seq<ConnectionTicket>,
    after: Seq<ConnectionTicket>,
    id: usize,
) -> bool {
    exists|i: int|
        {
            &&& 0 <= i < before.len()
            &&& (#[trigger] before[i]).ticket_id() == id
            &&& after == before.remove(i)
        }
}

/// `after` is what is left of `before` when the tickets at its front whose signals were not
/// delivered are dropped and the first remaining one, if there is any, is served.
pub open spec fn advanced(before: Seq<ConnectionTicket>, after: Seq<ConnectionTicket>) -> bool {
    let abandoned = before.len() - after.len();
    &&& abandoned >= 0
    &&& forall|i: int| 0 <= i < abandoned ==> !(#[trigger] before[i]).delivered()
    &&& after.len() > 0 ==> {
        &&& before[abandoned].delivered()
        &&& after[0].ticket_id() == before[abandoned].ticket_id()
        &&& after[0].served()
        &&& after.skip(1) == before.skip(abandoned + 1)
    }
}

/// A queue for incoming WebSocket connections. Connections can be added to the queue and are served
/// in the order in which they were received.
pub struct ConnectionQueue {
    /// The ID of the next ticket to be added.
    next_id: usize,
    /// The queue of tickets to be served.
    queue: VecDeque<ConnectionTicket>,
}

impl View for ConnectionQueue {
    type V = Seq<ConnectionTicket>;

    closed spec fn view(&self) -> Seq<ConnectionTicket> {
        self.queue@
    }
}

impl ConnectionQueue {
    /// The ID that the next connection will get.
    pub closed spec fn upcoming_id(self) -> usize {
        self.next_id
    }

    /// The tickets are in order, and their IDs will not be handed out again.
    pub open spec fn wf(self) -> bool {
        &&& well_ordered(self@)
        &&& forall|i: int|
            0 <= i < self@.len() ==> (#[trigger] self@[i]).ticket_id() < self.upcoming_id()
    }

    /// Whether [`serve_next`][Self::serve_next] may be called: the connection at the head of the
    /// queue, if there is one, must not have been served yet.
    pub open spec fn may_serve(self) -> bool {
        self@.len() > 0 ==> !self@[0].served()
    }

    /// Whether the connection at the head of the queue, if there is one, is being served.
    pub open spec fn serving(self) -> bool {
        self@.len() > 0 ==> self@[0].served()
    }

    /// Returns a new empty `ConnectionQueue`.
    pub fn new() -> (queue: Self)
        ensures
            queue.wf(),
            queue.serving(),
            queue@ == Seq::<ConnectionTicket>::empty(),
            queue.upcoming_id() == 0,
    {
        ConnectionQueue { next_id: 0, queue: VecDeque::new() }
    }

    /// Returns whether the queue is empty.
    pub fn is_empty(&self) -> (empty: bool)
        ensures
            empty == (self@.len() == 0),
    {
        self.queue.len() == 0
    }

    /// Returns the ID that the next connection will get.
    pub fn next_id(&self) -> (id: usize)
        ensures
            id == self.upcoming_id(),
    {
        self.next_id
    }

    /// Returns the ID of the connection at the head of the queue, if there is one.
    pub fn head(&self) -> (id: Option<usize>)
        ensures
            id == (if self@.len() > 0 {
                Some(self@[0].ticket_id())
            } else {
                None
            }),
    {
        if self.queue.len() > 0 {
            Some(self.queue[0].id())
        } else {
            None
        }
    }

    /// Adds a connection to the queue and returns its ID in the queue and a [`TicketNotifier`],
    /// which can be `await`ed to be notified of when the connection is ready to be served.
    pub fn add_connection(&mut self) -> (result: (usize, TicketNotifier))
        requires
            old(self).wf(),
            old(self).upcoming_id() < usize::MAX,
        ensures
            final(self).wf(),
            result.0 == old(self).upcoming_id(),
            final(self).upcoming_id() == old(self).upcoming_id() + 1,
            final(self)@.len() == old(self)@.len() + 1,
            final(self)@.drop_last() == old(self)@,
            final(self)@.last().ticket_id() == result.0,
            !final(self)@.last().served(),
            final(self)@.last().notifies(result.1),
            channel::heard(result.1) == Seq::<channel::TicketSignal>::empty(),
    {
        let id: usize = self.next_id;
        self.next_id = self.next_id + 1;

        let (ticket, rx) = ConnectionTicket::new(id);
        self.queue.push_back(ticket);
        assert(self@.drop_last() == old(self)@);
        (id, rx)
    }

    /// Records the outcome of an attempt to serve the head of the queue. An abandoned connection
    /// is removed from the queue. Returns whether the connection at the head is being served.
    pub fn settle_head(&mut self, outcome: Result<(), Error>) -> (serving: bool)
        requires
            old(self).wf(),
            old(self)@.len() > 0,
            outcome != Err::<(), Error>(Error::TicketAlreadyServed),
        ensures
            final(self).wf(),
            final(self).upcoming_id() == old(self).upcoming_id(),
            serving == (outcome is Ok),
            serving ==> final(self)@ == old(self)@,
            !serving ==> final(self)@ == old(self)@.skip(1),
    {
        match outcome {
            Ok(()) => true,
            Err(_) => {
                let _abandoned = self.queue.pop_front();
                assert(self@ == old(self)@.skip(1));
                false
            },
        }
    }

    /// Serves the next connection in the queue if one exists. Returns whether a connection was
    /// served. Connections at the front of the queue that were abandoned are removed; which ones
    /// those are is up to the holders of their notifiers.
    ///
    /// The next connection in the queue must not have been served already. This is guaranteed by
    /// always calling [`remove`][Self::remove] after each served connection completes its work.
    pub fn serve_next(&mut self) -> (served: bool)
        requires
            old(self).wf(),
            old(self).may_serve(),
        ensures
            final(self).wf(),
            final(self).upcoming_id() == old(self).upcoming_id(),
            final(self).serving(),
            advanced(old(self)@, final(self)@),
            served == (final(self)@.len() > 0),
    {
        while self.queue.len() > 0
            invariant
                self.wf(),
                self.may_serve(),
                self.upcoming_id() == old(self).upcoming_id(),
                self@.len() <= old(self)@.len(),
                self@ == old(self)@.skip(old(self)@.len() - self@.len()),
                forall|i: int|
                    0 <= i < old(self)@.len() - self@.len() ==> !(
                    #[trigger] old(self)@[i]).delivered(),
            decreases self@.len(),
        {
            let ghost before = self@;
            let ghost abandoned = old(self)@.len() - before.len();
            if let Some(mut first) = self.queue.pop_front() {
                let outcome = first.try_serve();
                self.queue.push_front(first);
                assert(self@ =~= seq![first] + before.skip(1));
                assert(self.wf());
                if self.settle_head(outcome) {
                    assert(self@.skip(1) =~= old(self)@.skip(abandoned + 1));
                    return true;
                }
                assert(self@ =~= before.skip(1));
                assert(before.skip(1) =~= old(self)@.skip(abandoned + 1));
            }
        }

        false
    }

    /// Removes the connection with the specified ID. Returns whether a connection was removed.
    ///
    /// This must be called whenever a served connection completes its work, and may also be called
    /// to cancel a pending connection.
    pub fn remove(&mut self, id: usize) -> (found: bool)
        requires
            old(self).wf(),
        ensures
            final(self).wf(),
            final(self).upcoming_id() == old(self).upcoming_id(),
            found == has_ticket(old(self)@, id),
            found ==> removed(old(self)@, final(self)@, id),
            !found ==> final(self)@ == old(self)@,
    {
        match self.find(id) {
            Some(i) => {
                let _ticket = self.queue.remove(i);
                assert(old(self)@[i as int].ticket_id() == id);
                assert(self.wf());
                true
            },
            None => false,
        }
    }

    /// Removes the connection with the specified ID and, if it was at the head of the queue, calls
    /// [`serve_next`][Self::serve_next]. Returns whether `serve_next` was called.
    ///
    /// This may be called instead of [`remove`][Self::remove] to automatically advance the queue
    /// as needed.
    pub fn remove_and_serve_next(&mut self, id: usize) -> (advance: bool)
        requires
            old(self).wf(),
        ensures
            final(self).wf(),
            final(self).upcoming_id() == old(self).upcoming_id(),
            old(self).serving() ==> final(self).serving(),
            advance == (old(self)@.len() > 0 && old(self)@[0].ticket_id() == id),
            advance ==> advanced(old(self)@.skip(1), final(self)@),
            !advance && has_ticket(old(self)@, id) ==> removed(old(self)@, final(self)@, id),
            !has_ticket(old(self)@, id) ==> final(self)@ == old(self)@,
    {
        let index = self.find(id);

        self.remove(id);

        match index {
            Some(0) => {
                assert(self@ =~= old(self)@.skip(1)) by {
                    assert(old(self)@[0].ticket_id() == id);
                }
                self.serve_next();
                true
            },
            _ => false,
        }
    }

    /// Returns the index of the connection with the specified ID if it exists.
    pub fn find(&self, id: usize) -> (index: Option<usize>)
        ensures
            index is Some == has_ticket(self@, id),
            index matches Some(i) ==> i < self@.len() && self@[i as int].ticket_id() == id,
    {
        let mut i: usize = 0;
        while i < self.queue.len()
            invariant
                i <= self@.len(),
                forall|j: int| 0 <= j < i ==> (#[trigger] self@[j]).ticket_id() != id,
            decreases self@.len() - i,
        {
            if self.queue[i].id() == id {
                assert(self@[i as int].ticket_id() == id);
                return Some(i);
            }
            i = i + 1;
        }

        None
    }

    /// Adds a connection that has just come in. If no other connection is in the queue, the new one
    /// is served at once. Returns its ID and its notifier.
    pub fn enqueue(&mut self) -> (result: (usize, TicketNotifier))
        requires
            old(self).wf(),
            old(self).upcoming_id() < usize::MAX,
        ensures
            final(self).wf(),
            result.0 == old(self).upcoming_id(),
            final(self).upcoming_id() == old(self).upcoming_id() + 1,
            old(self).serving() ==> final(self).serving(),
            channel::heard(result.1) == Seq::<channel::TicketSignal>::empty(),
            exists|ticket: ConnectionTicket|
                #![trigger ticket.notifies(result.1)]
                {
                    &&& ticket.ticket_id() == result.0
                    &&& !ticket.served()
                    &&& ticket.notifies(result.1)
                    &&& if old(self)@.len() > 0 {
                        final(self)@ == old(self)@.push(ticket)
                    } else {
                        advanced(seq![ticket], final(self)@)
                    }
                },
    {
        let is_empty = self.is_empty();
        let (id, rx) = self.add_connection();
        let ghost ticket = self@.last();
        assert(self@ =~= old(self)@.push(ticket));

        // If this is the first connection in the queue, immediately serve it
        if is_empty {
            assert(self@ =~= seq![ticket]);
            self.serve_next();
        }
        (id, rx)
    }
}

/// Law: at most one connection is being served at a time, and it is the one at the head of the
/// queue.
pub proof fn law_only_head_is_served(queue: ConnectionQueue, i: int)
    requires
        queue.wf(),
        0 <= i < queue@.len(),
        queue@[i].served(),
    ensures
        i == 0,
{
}

/// Law: no two connections in the queue have the same ID, and the ID that the next connection will
/// get is not in the queue.
pub proof fn law_ids_are_unique(queue: ConnectionQueue)
    requires
        queue.wf(),
    ensures
        forall|i: int, j: int|
            0 <= i < queue@.len() && 0 <= j < queue@.len() && (#[trigger] queue@[i]).ticket_id() == (
            #[trigger] queue@[j]).ticket_id() ==> i == j,
        !has_ticket(queue@, queue.upcoming_id()),
        // IDs grow towards the end of the queue, and the next one is larger than all
        forall|i: int, j: int|
            0 <= i < j < queue@.len() ==> (#[trigger] queue@[i]).ticket_id() < (
            #[trigger] queue@[j]).ticket_id(),
        forall|i: int|
            0 <= i < queue@.len() ==> (#[trigger] queue@[i]).ticket_id() < queue.upcoming_id(),
{
    assert forall|i: int, j: int|
        0 <= i < queue@.len() && 0 <= j < queue@.len() && (#[trigger] queue@[i]).ticket_id() == (
        #[trigger] queue@[j]).ticket_id() implies i == j by {
        if i < j {
            assert(queue@[i].ticket_id() < queue@[j].ticket_id());
        } else if j < i {
            assert(queue@[j].ticket_id() < queue@[i].ticket_id());
        }
    }
}

/// Law: connections are served in the order in which they were received. When the queue advances,
/// a connection that is still in it keeps every connection behind it, in the same order, and the
/// connection that is served is the earliest one left. Only abandoned connections are passed over.
pub proof fn law_first_come_first_served(
    before: Seq<ConnectionTicket>,
    after: Seq<ConnectionTicket>,
)
    requires
        well_ordered(before),
        advanced(before, after),
    ensures
        forall|k: int|
            0 <= k < after.len() ==> (#[trigger] after[k]).ticket_id() == before[k + before.len()
                - after.len()].ticket_id(),
        forall|k: int|
            0 < k < after.len() ==> after[0].ticket_id() < (#[trigger] after[k]).ticket_id(),
        after.len() > 0 ==> after[0].served(),
        forall|i: int| 0 <= i < before.len() - after.len() ==> !(#[trigger] before[i]).delivered(),
        // None is made up, the one that is served was notified, and those behind it are untouched
        after.len() <= before.len(),
        after.len() > 0 ==> before[before.len() - after.len()].delivered(),
        forall|k: int|
            0 < k < after.len() ==> (#[trigger] after[k]) == before[k + before.len() - after.len()],
{
    let abandoned = before.len() - after.len();
    assert forall|k: int| 0 <= k < after.len() implies (#[trigger] after[k]).ticket_id()
        == before[k + abandoned].ticket_id() by {
        if k > 0 {
            assert(after.skip(1)[k - 1] == before.skip(abandoned + 1)[k - 1]);
        }
    }
    assert forall|k: int| 0 < k < after.len() implies (#[trigger] after[k]) == before[k
        + abandoned] by {
        assert(after.skip(1)[k - 1] == before.skip(abandoned + 1)[k - 1]);
    }
    assert forall|k: int| 0 < k < after.len() implies after[0].ticket_id() < (
    #[trigger] after[k]).ticket_id() by {
        assert(before[abandoned].ticket_id() < before[k + abandoned].ticket_id());
    }
}

/// Law: a removed connection is no longer in the queue, every other one still is, and the order of
/// those that remain is kept.
pub proof fn law_removal_takes_one(
    before: Seq<ConnectionTicket>,
    after: Seq<ConnectionTicket>,
    id: usize,
)
    requires
        well_ordered(before),
        removed(before, after, id),
    ensures
        !has_ticket(after, id),
        after.len() == before.len() - 1,
        well_ordered(after),
        forall|other: usize|
            other != id ==> has_ticket(after, other) == has_ticket(before, other),
        // All but the removed ticket are what they were, where they were
        exists|i: int|
            {
                &&& 0 <= i < before.len()
                &&& (#[trigger] before[i]).ticket_id() == id
                &&& forall|k: int| 0 <= k < i ==> (#[trigger] after[k]) == before[k]
                &&& forall|k: int| i <= k < after.len() ==> (#[trigger] after[k]) == before[k + 1]
            },
{
    let i = choose|i: int|
        {
            &&& 0 <= i < before.len()
            &&& (#[trigger] before[i]).ticket_id() == id
            &&& after == before.remove(i)
        };
    assert forall|k: int| 0 <= k < after.len() implies (#[trigger] after[k]).ticket_id() != id by {
        if k < i {
            assert(before[k].ticket_id() < before[i].ticket_id());
        } else {
            assert(before[i].ticket_id() < before[k + 1].ticket_id());
        }
    }
    assert forall|other: usize| other != id implies has_ticket(after, other) == has_ticket(
        before,
        other,
    ) by {
        if has_ticket(after, other) {
            let k = choose|k: int|
                0 <= k < after.len() && (#[trigger] after[k]).ticket_id() == other;
            assert(before[if k < i { k } else { k + 1 }].ticket_id() == other);
        }
        if has_ticket(before, other) {
            let k = choose|k: int|
                0 <= k < before.len() && (#[trigger] before[k]).ticket_id() == other;
            assert(after[if k < i { k } else { k - 1 }].ticket_id() == other);
        }
    }
}

/// Law: a ticket has one signal. A ticket that can still notify someone has not used it up, and its
/// signal is delivered exactly if it was put into the channel to the notifier.
pub proof fn law_ticket_has_one_signal(ticket: ConnectionTicket, notifier: TicketNotifier)
    ensures
        ticket.notifies(notifier) ==> {
            &&& !ticket.served()
            &&& exists|sender: Sender<()>|
                {
                    &&& #[trigger] channel::connected(sender, notifier)
                    &&& channel::signalled(sender) == ticket.delivered()
                }
        },
        ticket.delivered() ==> !ticket.served(),
{
}

/// Law: a connection is in the queue if one of the tickets has its ID, and the queue may serve the
/// next connection exactly if nobody is being served.
pub proof fn law_queue_is_busy_or_ready(queue: ConnectionQueue, id: usize)
    requires
        queue.wf(),
    ensures
        has_ticket(queue@, id) <==> exists|ticket: ConnectionTicket| #[trigger]
            queue@.contains(ticket) && ticket.ticket_id() == id,
        queue.may_serve() <==> forall|i: int|
            0 <= i < queue@.len() ==> !(#[trigger] queue@[i]).served(),
        queue.serving() <==> queue@.len() == 0 || queue@[0].served(),
{
    if has_ticket(queue@, id) {
        let i = choose|i: int| 0 <= i < queue@.len() && (#[trigger] queue@[i]).ticket_id() == id;
        assert(queue@.contains(queue@[i]));
    }
}

} // verus!
