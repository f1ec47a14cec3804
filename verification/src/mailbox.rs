//! The bounded outbound queue that stands between the broadcasts of all
//! sessions and the writer of one peer.

use crate::message::{Message, MessageView};
use std::collections::VecDeque;
use std::sync::Arc;
use vstd::prelude::*;

verus! {

/// How many messages a peer's mailbox holds before the peer counts as unable
/// to keep up.
pub const MAX_MESSAGE: usize = 128;

/// Why a message could not be queued.
#[derive(Debug, Clone, Copy, PartialEq, Eq, Structural)]
pub enum PushError {
    /// The mailbox already holds as many messages as its capacity allows.
    Full,
    /// The consumer is gone; nothing will be read from this mailbox again.
    Closed,
}

/// The mathematical value of a [`Mailbox`].
pub ghost struct MailboxView {
    /// The queued messages, oldest first.
    pub pending: Seq<MessageView>,
    /// The most messages that may be queued at once.
    pub capacity: nat,
    /// Whether the mailbox refuses further messages for good.
    pub closed: bool,
}

impl MailboxView {
    /// An open mailbox of the given capacity with nothing queued.
    pub open spec fn empty(capacity: nat) -> MailboxView {
        MailboxView { pending: Seq::empty(), capacity, closed: false }
    }

    /// The queue never grows beyond the capacity.
    pub open spec fn bounded(self) -> bool {
        self.pending.len() <= self.capacity
    }

    /// A push succeeds exactly on an open mailbox with room left.
    pub open spec fn accepts(self) -> bool {
        !self.closed && self.pending.len() < self.capacity
    }

    /// What a push answers: a closed mailbox says so even when it is full too.
    pub open spec fn push_outcome(self) -> Result<(), PushError> {
        if self.closed {
            Err(PushError::Closed)
        } else if self.pending.len() >= self.capacity {
            Err(PushError::Full)
        } else {
            Ok(())
        }
    }

    /// The mailbox with `message` queued behind everything already pending.
    pub open spec fn with_message(self, message: MessageView) -> MailboxView {
        MailboxView { pending: self.pending.push(message), ..self }
    }

    /// The mailbox after its oldest message was taken out.
    pub open spec fn without_first(self) -> MailboxView {
        MailboxView { pending: self.pending.skip(1), ..self }
    }

    /// The mailbox after it was closed; what is queued stays readable.
    pub open spec fn shut(self) -> MailboxView {
        MailboxView { closed: true, ..self }
    }
}

/// A bounded first-in-first-out queue of shared messages.
///
/// Any session may push into it; only the writer of the peer it belongs to
/// takes messages out.
#[derive(Debug)]
pub struct Mailbox {
    queue: VecDeque<Arc<Message>>,
    capacity: usize,
    closed: bool,
}

impl View for Mailbox {
    type V = MailboxView;

    closed spec fn view(&self) -> MailboxView {
        MailboxView {
            pending: self.queue@.map_values(|message: Arc<Message>| message@),
            capacity: self.capacity as nat,
            closed: self.closed,
        }
    }
}

impl Mailbox {
    /// An open, empty mailbox that holds up to `capacity` messages.
    pub fn new(capacity: usize) -> (mailbox: Mailbox)
        ensures
            mailbox@ == MailboxView::empty(capacity as nat),
            mailbox@.bounded(),
    {
        let mailbox = Mailbox { queue: VecDeque::new(), capacity, closed: false };
        assert(mailbox@.pending =~= Seq::empty());
        mailbox
    }

    /// Queues `message` without waiting. A closed or full mailbox refuses it
    /// and stays as it was.
    pub fn try_push(&mut self, message: Arc<Message>) -> (outcome: Result<(), PushError>)
        ensures
            outcome == old(self)@.push_outcome(),
            outcome.is_ok() <==> old(self)@.accepts(),
            final(self)@ == if old(self)@.accepts() {
                old(self)@.with_message(message@)
            } else {
                old(self)@
            },
            old(self)@.bounded() ==> final(self)@.bounded(),
    {
        if self.closed {
            return Err(PushError::Closed);
        }
        if self.queue.len() >= self.capacity {
            return Err(PushError::Full);
        }
        self.queue.push_back(message);
        assert(self@.pending =~= old(self)@.pending.push(message@));
        Ok(())
    }

    /// Takes out the oldest queued message, if there is one.
    pub fn pop(&mut self) -> (message: Option<Arc<Message>>)
        ensures
            match message {
                Some(first) => {
                    &&& old(self)@.pending.len() > 0
                    &&& first@ == old(self)@.pending[0]
                    &&& final(self)@ == old(self)@.without_first()
                },
                None => {
                    &&& old(self)@.pending.len() == 0
                    &&& final(self)@ == old(self)@
                },
            },
            old(self)@.bounded() ==> final(self)@.bounded(),
    {
        let message = self.queue.pop_front();
        assert(message.is_some() ==> self@.pending =~= old(self)@.pending.skip(1));
        message
    }

    /// Closes the mailbox: every later push is refused. What is queued stays.
    pub fn close(&mut self)
        ensures
            final(self)@ == old(self)@.shut(),
            old(self)@.bounded() ==> final(self)@.bounded(),
    {
        self.closed = true;
    }

    /// How many messages are queued.
    pub fn len(&self) -> (n: usize)
        ensures
            n == self@.pending.len(),
    {
        self.queue.len()
    }

    /// Whether nothing is queued.
    pub fn is_empty(&self) -> (empty: bool)
        ensures
            empty <==> self@.pending.len() == 0,
    {
        self.queue.len() == 0
    }

    /// Whether the queue has reached its capacity.
    pub fn is_full(&self) -> (full: bool)
        ensures
            full <==> self@.pending.len() >= self@.capacity,
    {
        self.queue.len() >= self.capacity
    }

    /// The most messages this mailbox holds at once.
    pub fn capacity(&self) -> (capacity: usize)
        ensures
            capacity == self@.capacity,
    {
        self.capacity
    }

    /// Whether the mailbox was closed.
    pub fn is_closed(&self) -> (closed: bool)
        ensures
            closed == self@.closed,
    {
        self.closed
    }
}

} // verus!
