//! The peer registry: who is connected, and how messages reach them.

use crate::mailbox::{Mailbox, MailboxView};
use crate::message::{share, Message, MessageView};
use crate::peers::{
    counts, entries, peers_contains, peers_ids, peers_insert, peers_len, peers_new, peers_remove,
};
use dashmap::DashMap;
use std::sync::Arc;
use vstd::prelude::*;

verus! {

/// The registry after `message` was broadcast on behalf of `excluded`.
///
/// Every registered peer other than `excluded` whose mailbox accepts the
/// message has it queued last; every other one whose mailbox is full or closed
/// is no longer registered. The entry of `excluded`, if there is one, is
/// untouched.
pub open spec fn after_broadcast(
    peers: Map<u64, MailboxView>,
    excluded: u64,
    message: MessageView,
) -> Map<u64, MailboxView> {
    Map::new(
        |id: u64| peers.contains_key(id) && (id == excluded || peers[id].accepts()),
        |id: u64|
            if id == excluded {
                peers[id]
            } else {
                peers[id].with_message(message)
            },
    )
}

/// The registry after the mailbox of `id` was closed; the entry stays.
pub open spec fn after_close(peers: Map<u64, MailboxView>, id: u64) -> Map<u64, MailboxView> {
    if peers.contains_key(id) {
        peers.insert(id, peers[id].shut())
    } else {
        peers
    }
}

/// The registry after the oldest message queued for `id` was taken out.
pub open spec fn after_take(peers: Map<u64, MailboxView>, id: u64) -> Map<u64, MailboxView> {
    if peers.contains_key(id) && peers[id].pending.len() > 0 {
        peers.insert(id, peers[id].without_first())
    } else {
        peers
    }
}

/// What the mailbox of one peer yields to its writer.
#[derive(Debug)]
pub enum Outbound {
    /// The oldest queued message, now taken out of the mailbox.
    Message(Arc<Message>),
    /// Nothing is queued, but more may come.
    Empty,
    /// Nothing is queued and nothing will come: the mailbox was closed, or
    /// the peer is no longer registered.
    Closed,
}

/// The mathematical value of an [`Outbound`].
pub ghost enum OutboundView {
    Message(MessageView),
    Empty,
    Closed,
}

impl View for Outbound {
    type V = OutboundView;

    open spec fn view(&self) -> OutboundView {
        match *self {
            Outbound::Message(message) => OutboundView::Message(message@),
            Outbound::Empty => OutboundView::Empty,
            Outbound::Closed => OutboundView::Closed,
        }
    }
}

/// What the writer of `id` finds when it looks into the registry.
pub open spec fn outbound_of(peers: Map<u64, MailboxView>, id: u64) -> OutboundView {
    if !peers.contains_key(id) {
        OutboundView::Closed
    } else if peers[id].pending.len() > 0 {
        OutboundView::Message(peers[id].pending[0])
    } else if peers[id].closed {
        OutboundView::Closed
    } else {
        OutboundView::Empty
    }
}

/// The registry after one attempt to deliver `message` to `id`.
spec fn after_offer(peers: Map<u64, MailboxView>, id: u64, message: MessageView) -> Map<
    u64,
    MailboxView,
> {
    if !peers.contains_key(id) {
        peers
    } else if peers[id].accepts() {
        peers.insert(id, peers[id].with_message(message))
    } else {
        peers.remove(id)
    }
}

/// The broadcast of `message` as far as the peers in `handled` go: those were
/// served or dropped, the others wait their turn.
spec fn partly_broadcast(
    peers: Map<u64, MailboxView>,
    handled: Seq<u64>,
    excluded: u64,
    message: MessageView,
) -> Map<u64, MailboxView> {
    Map::new(
        |id: u64|
            peers.contains_key(id) && (!handled.contains(id) || id == excluded
                || peers[id].accepts()),
        |id: u64|
            if handled.contains(id) && id != excluded {
                peers[id].with_message(message)
            } else {
                peers[id]
            },
    )
}

/// The map from connection identity to outbound mailbox: the one place that
/// says who is connected.
#[derive(Debug)]
pub struct Registry {
    peers: DashMap<u64, Mailbox>,
}

impl View for Registry {
    type V = Map<u64, MailboxView>;

    closed spec fn view(&self) -> Map<u64, MailboxView> {
        entries(self.peers)
    }
}

impl Default for Registry {
    fn default() -> (registry: Registry)
        ensures
            registry@ == Map::<u64, MailboxView>::empty(),
    {
        Registry::new()
    }
}

impl Registry {
    /// A registry without peers.
    pub fn new() -> (registry: Registry)
        ensures
            registry@ == Map::<u64, MailboxView>::empty(),
    {
        Registry { peers: peers_new() }
    }

    /// Inserts the entry for `id`, or replaces the one it had.
    pub fn register(&mut self, id: u64, mailbox: Mailbox)
        ensures
            final(self)@ == old(self)@.insert(id, mailbox@),
    {
        peers_insert(&mut self.peers, id, mailbox);
    }

    /// Removes the entry for `id`; nothing happens if it has none.
    pub fn unregister(&mut self, id: u64)
        ensures
            final(self)@ == old(self)@.remove(id),
    {
        peers_remove(&mut self.peers, id);
    }

    /// Offers `message` to the mailbox of `id`: it is queued there, or the
    /// peer is dropped because its mailbox is full or closed.
    fn offer(&mut self, id: u64, message: &Arc<Message>)
        ensures
            final(self)@ == after_offer(old(self)@, id, message@),
    {
        if let Some(mut mailbox) = peers_remove(&mut self.peers, id) {
            if mailbox.try_push(share(message)).is_ok() {
                peers_insert(&mut self.peers, id, mailbox);
            }
        }
    }

    /// Delivers `message` to the mailbox of every registered peer other than
    /// `excluded`, without waiting for any of them. A peer whose mailbox is
    /// full or closed loses the message and its registration; the others are
    /// served all the same.
    pub fn broadcast_except(&mut self, excluded: u64, message: Arc<Message>)
        ensures
            final(self)@ == after_broadcast(old(self)@, excluded, message@),
    {
        let ids = peers_ids(&self.peers);
        let mut i: usize = 0;
        while i < ids.len()
            invariant
                0 <= i <= ids.len(),
                ids@.no_duplicates(),
                ids@.to_set() == old(self)@.dom(),
                self@ == partly_broadcast(old(self)@, ids@.take(i as int), excluded, message@),
            decreases ids.len() - i,
        {
            let id = ids[i];
            let ghost handled = ids@.take(i as int);
            if id != excluded {
                self.offer(id, &message);
            }
            proof {
                assert(ids@.take(i + 1) =~= handled.push(id));
                assert forall|other: u64| #[trigger]
                    handled.push(id).contains(other) <==> (other == id || handled.contains(
                        other,
                    )) by {
                    vstd::seq_lib::lemma_seq_contains_after_push(handled, id, other);
                }
            }
            i += 1;
        }
        proof {
            assert(ids@.take(i as int) =~= ids@);
        }
    }

    /// Takes the oldest message queued for `id` out of its mailbox, or says
    /// why there is none.
    pub fn take_next(&mut self, id: u64) -> (next: Outbound)
        ensures
            next@ == outbound_of(old(self)@, id),
            final(self)@ == after_take(old(self)@, id),
    {
        match peers_remove(&mut self.peers, id) {
            Some(mut mailbox) => {
                let closed = mailbox.is_closed();
                let first = mailbox.pop();
                peers_insert(&mut self.peers, id, mailbox);
                match first {
                    Some(message) => Outbound::Message(message),
                    None => if closed {
                        Outbound::Closed
                    } else {
                        Outbound::Empty
                    },
                }
            },
            None => Outbound::Closed,
        }
    }

    /// Closes the mailbox of `id` and leaves its entry in place, so that the
    /// next broadcast finds the peer unreachable. Nothing happens if `id` is
    /// not registered.
    pub fn close(&mut self, id: u64)
        ensures
            final(self)@ == after_close(old(self)@, id),
    {
        if let Some(mut mailbox) = peers_remove(&mut self.peers, id) {
            mailbox.close();
            peers_insert(&mut self.peers, id, mailbox);
        }
    }

    /// Whether `id` is registered.
    pub fn contains(&self, id: u64) -> (present: bool)
        ensures
            present == self@.contains_key(id),
    {
        peers_contains(&self.peers, id)
    }

    /// How many peers are registered.
    pub fn len(&self) -> (n: usize)
        ensures
            self@.dom().finite(),
            n == self@.dom().len(),
    {
        peers_len(&self.peers)
    }

    /// Whether no peer is registered.
    pub fn is_empty(&self) -> (empty: bool)
        ensures
            empty <==> self@ == Map::<u64, MailboxView>::empty(),
    {
        let n = peers_len(&self.peers);
        proof {
            if n == 0 {
                assert(self@ =~= Map::<u64, MailboxView>::empty());
            }
        }
        n == 0
    }
}

} // verus!
