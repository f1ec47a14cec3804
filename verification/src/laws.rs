//! What holds of the registry over whole runs of joins, chats and departures.
//!
//! The contracts of the functions say what one call does. The proofs here
//! follow from them and say what that adds up to.

use crate::mailbox::{MailboxView, MAX_MESSAGE};
use crate::message::MessageView;
use crate::registry::{after_broadcast, after_close, after_take, outbound_of, OutboundView};
use crate::session::{after_join, after_leave, SessionEventView, SessionState, SessionView};
use vstd::prelude::*;

verus! {

/// The registry after a run of broadcasts, each given as its sender and its
/// message, first to last.
pub open spec fn after_all(peers: Map<u64, MailboxView>, sends: Seq<(u64, MessageView)>) -> Map<
    u64,
    MailboxView,
>
    decreases sends.len(),
{
    if sends.len() == 0 {
        peers
    } else {
        after_broadcast(after_all(peers, sends.drop_last()), sends.last().0, sends.last().1)
    }
}

/// The registry after the connections `ids` joined one after the other, the
/// i-th under the name `names[i]`.
pub open spec fn after_joins(
    peers: Map<u64, MailboxView>,
    ids: Seq<u64>,
    names: Seq<Seq<char>>,
) -> Map<u64, MailboxView>
    decreases ids.len(),
{
    if ids.len() == 0 {
        peers
    } else {
        after_join(
            after_joins(peers, ids.drop_last(), names.drop_last()),
            ids.last(),
            names.last(),
        )
    }
}

/// The join notices for the names from position `from` on, in order.
pub open spec fn join_notices(names: Seq<Seq<char>>, from: int) -> Seq<MessageView> {
    names.skip(from).map_values(|name: Seq<char>| MessageView::Joined { username: name })
}

/// The messages of a run of broadcasts, without their senders.
pub open spec fn messages_of(sends: Seq<(u64, MessageView)>) -> Seq<MessageView> {
    sends.map_values(|send: (u64, MessageView)| send.1)
}

/// What a run of broadcasts has for `listener` to read: the messages that
/// others sent, in the order they were sent.
pub open spec fn heard_by(sends: Seq<(u64, MessageView)>, listener: u64) -> Seq<MessageView>
    decreases sends.len(),
{
    if sends.len() == 0 {
        Seq::empty()
    } else if sends.last().0 == listener {
        heard_by(sends.drop_last(), listener)
    } else {
        heard_by(sends.drop_last(), listener).push(sends.last().1)
    }
}

/// The registry after the writer of `id` took a message out `count` times.
pub open spec fn after_takes(peers: Map<u64, MailboxView>, id: u64, count: nat) -> Map<
    u64,
    MailboxView,
>
    decreases count,
{
    if count == 0 {
        peers
    } else {
        after_take(after_takes(peers, id, (count - 1) as nat), id)
    }
}

/// Every registered mailbox holds no more than its capacity.
pub open spec fn all_bounded(peers: Map<u64, MailboxView>) -> bool {
    forall|id: u64| peers.contains_key(id) ==> (#[trigger] peers[id]).bounded()
}

/// No operation on the registry lets a mailbox grow beyond its capacity:
/// if every mailbox was within bounds before, every mailbox is afterwards.
pub proof fn lemma_mailboxes_stay_bounded(
    peers: Map<u64, MailboxView>,
    id: u64,
    mailbox: MailboxView,
    message: MessageView,
)
    requires
        all_bounded(peers),
    ensures
        mailbox.bounded() ==> all_bounded(peers.insert(id, mailbox)),
        all_bounded(peers.remove(id)),
        all_bounded(after_broadcast(peers, id, message)),
        all_bounded(after_take(peers, id)),
        all_bounded(after_close(peers, id)),
{
}

/// No event of a session lets a mailbox grow beyond its capacity.
pub proof fn lemma_sessions_keep_mailboxes_bounded(
    peers: Map<u64, MailboxView>,
    session: SessionView,
    event: SessionEventView,
)
    requires
        all_bounded(peers),
    ensures
        all_bounded(session.effect(event, peers)),
{
}

/// Unregistering an identity a second time changes nothing.
pub proof fn lemma_unregister_idempotent(peers: Map<u64, MailboxView>, id: u64)
    ensures
        peers.remove(id).remove(id) == peers.remove(id),
{
}

/// A broadcast registers nobody: whoever is registered afterwards was
/// registered before.
pub proof fn lemma_broadcast_registers_nobody(
    peers: Map<u64, MailboxView>,
    sender: u64,
    message: MessageView,
)
    ensures
        after_broadcast(peers, sender, message).dom().subset_of(peers.dom()),
{
}

/// No run of broadcasts registers anybody.
pub proof fn lemma_broadcasts_register_nobody(
    peers: Map<u64, MailboxView>,
    sends: Seq<(u64, MessageView)>,
)
    ensures
        after_all(peers, sends).dom().subset_of(peers.dom()),
    decreases sends.len(),
{
    if sends.len() > 0 {
        lemma_broadcasts_register_nobody(peers, sends.drop_last());
    }
}

/// After N connections with distinct identities joined, each of them is
/// registered with one notice for every join after its own, in order, and
/// none for its own. A peer that was there before is still registered exactly
/// if its mailbox was open with room for N notices, and then it has one notice
/// for each of the joins, in order, behind what it had to read.
///
/// This is stated for as many joins as leave every newcomer's mailbox room:
/// with nobody reading, a mailbox takes [`MAX_MESSAGE`] notices.
pub proof fn lemma_joins_notify_everyone(
    peers: Map<u64, MailboxView>,
    ids: Seq<u64>,
    names: Seq<Seq<char>>,
)
    requires
        ids.len() == names.len(),
        ids.no_duplicates(),
        ids.len() <= MAX_MESSAGE + 1,
    ensures
        forall|k: int|
            0 <= k < ids.len() ==> {
                &&& after_joins(peers, ids, names).contains_key(#[trigger] ids[k])
                &&& after_joins(peers, ids, names)[ids[k]] == (MailboxView {
                    pending: join_notices(names, k + 1),
                    capacity: MAX_MESSAGE as nat,
                    closed: false,
                })
            },
        forall|other: u64|
            !ids.contains(other) ==> (#[trigger] after_joins(peers, ids, names).contains_key(other)
                <==> {
                &&& peers.contains_key(other)
                &&& ids.len() > 0 ==> !peers[other].closed
                &&& ids.len() > 0 ==> peers[other].pending.len() + ids.len()
                    <= peers[other].capacity
            }),
        forall|other: u64|
            !ids.contains(other) && #[trigger] after_joins(peers, ids, names).contains_key(other)
                ==> after_joins(peers, ids, names)[other] == (MailboxView {
                pending: peers[other].pending + join_notices(names, 0),
                ..peers[other]
            }),
    decreases ids.len(),
{
    let after = after_joins(peers, ids, names);
    if ids.len() > 0 {
        let n = ids.len() as int;
        let earlier_ids = ids.drop_last();
        let earlier_names = names.drop_last();
        let newcomer = ids.last();
        let notice = MessageView::Joined { username: names.last() };
        let before = after_joins(peers, earlier_ids, earlier_names);
        lemma_joins_notify_everyone(peers, earlier_ids, earlier_names);
        assert forall|k: int| 0 <= k < n implies {
            &&& after.contains_key(#[trigger] ids[k])
            &&& after[ids[k]] == (MailboxView {
                pending: join_notices(names, k + 1),
                capacity: MAX_MESSAGE as nat,
                closed: false,
            })
        } by {
            if k < n - 1 {
                assert(earlier_ids[k] == ids[k]);
                assert(join_notices(earlier_names, k + 1).push(notice) =~= join_notices(
                    names,
                    k + 1,
                ));
            } else {
                assert(join_notices(names, k + 1) =~= Seq::<MessageView>::empty());
            }
        }
        assert forall|other: u64| !ids.contains(other) implies (#[trigger] after.contains_key(
            other,
        ) <==> {
            &&& peers.contains_key(other)
            &&& !peers[other].closed
            &&& peers[other].pending.len() + n <= peers[other].capacity
        }) && (after.contains_key(other) ==> after[other] == (MailboxView {
            pending: peers[other].pending + join_notices(names, 0),
            ..peers[other]
        })) by {
            if before.contains_key(other) {
                assert((peers[other].pending + join_notices(earlier_names, 0)).push(notice)
                    =~= peers[other].pending + join_notices(names, 0));
            }
        }
    }
}

/// After N connections with distinct identities joined an empty registry,
/// exactly those N are registered.
///
/// This is stated for as many joins as leave every mailbox room: with nobody
/// reading, a mailbox takes [`MAX_MESSAGE`] notices.
pub proof fn lemma_joins_register_everyone(ids: Seq<u64>, names: Seq<Seq<char>>)
    requires
        ids.len() == names.len(),
        ids.no_duplicates(),
        ids.len() <= MAX_MESSAGE + 1,
    ensures
        after_joins(Map::empty(), ids, names).dom() == ids.to_set(),
        after_joins(Map::empty(), ids, names).dom().finite(),
        after_joins(Map::empty(), ids, names).dom().len() == ids.len(),
{
    let after = after_joins(Map::empty(), ids, names);
    lemma_joins_notify_everyone(Map::empty(), ids, names);
    assert(after.dom() =~= ids.to_set());
    vstd::seq_lib::seq_to_set_is_finite(ids);
    ids.unique_seq_to_set();
}

/// A mailbox keeps the order of publishing. After a run of broadcasts, a peer
/// that is still registered has to read, behind what it had before, exactly
/// the messages that others published, in the order they were published, and
/// none of its own. It is still registered exactly if it was registered, and
/// its mailbox was open with room for all of them.
pub proof fn lemma_mailbox_keeps_publish_order(
    peers: Map<u64, MailboxView>,
    sends: Seq<(u64, MessageView)>,
    listener: u64,
)
    ensures
        after_all(peers, sends).contains_key(listener) <==> {
            &&& peers.contains_key(listener)
            &&& heard_by(sends, listener).len() > 0 ==> !peers[listener].closed
            &&& heard_by(sends, listener).len() > 0 ==> peers[listener].pending.len() + heard_by(
                sends,
                listener,
            ).len() <= peers[listener].capacity
        },
        after_all(peers, sends).contains_key(listener) ==> after_all(peers, sends)[listener] == (
        MailboxView {
            pending: peers[listener].pending + heard_by(sends, listener),
            ..peers[listener]
        }),
    decreases sends.len(),
{
    if sends.len() > 0 {
        let earlier = sends.drop_last();
        lemma_mailbox_keeps_publish_order(peers, earlier, listener);
        if sends.last().0 != listener {
            assert((peers[listener].pending + heard_by(earlier, listener)).push(sends.last().1)
                =~= peers[listener].pending + heard_by(sends, listener));
        }
    }
}

/// Of what one peer alone publishes, that peer hears nothing and every other
/// peer hears all, in the order sent.
pub proof fn lemma_heard_from_one_sender(
    sends: Seq<(u64, MessageView)>,
    sender: u64,
    listener: u64,
)
    requires
        forall|i: int| 0 <= i < sends.len() ==> (#[trigger] sends[i]).0 == sender,
    ensures
        heard_by(sends, sender) == Seq::<MessageView>::empty(),
        listener != sender ==> heard_by(sends, listener) == messages_of(sends),
    decreases sends.len(),
{
    if sends.len() == 0 {
    } else {
        lemma_heard_from_one_sender(sends.drop_last(), sender, listener);
    }
}

/// A writer takes messages out in the order they were queued: after `count`
/// of them, the next one is the one that stood at position `count`, and
/// when all are out the mailbox yields no more.
pub proof fn lemma_writer_drains_in_order(peers: Map<u64, MailboxView>, id: u64, count: nat)
    requires
        peers.contains_key(id),
        count <= peers[id].pending.len(),
    ensures
        after_takes(peers, id, count) == peers.insert(
            id,
            MailboxView { pending: peers[id].pending.skip(count as int), ..peers[id] },
        ),
        count < peers[id].pending.len() ==> outbound_of(after_takes(peers, id, count), id)
            == OutboundView::Message(peers[id].pending[count as int]),
        count == peers[id].pending.len() ==> outbound_of(after_takes(peers, id, count), id) == (
        if peers[id].closed {
            OutboundView::Closed
        } else {
            OutboundView::Empty
        }),
    decreases count,
{
    let pending = peers[id].pending;
    if count == 0 {
        assert(pending.skip(0) =~= pending);
        assert(after_takes(peers, id, count) =~= peers.insert(
            id,
            MailboxView { pending: pending.skip(0), ..peers[id] },
        ));
    } else {
        lemma_writer_drains_in_order(peers, id, (count - 1) as nat);
        assert(pending.skip(count - 1).skip(1) =~= pending.skip(count as int));
        assert(after_takes(peers, id, count) =~= peers.insert(
            id,
            MailboxView { pending: pending.skip(count as int), ..peers[id] },
        ));
    }
}

/// When a joined peer disconnects, its session closes and its entry leaves
/// the registry; every remaining peer that can take it has exactly one
/// departure notice more to read, and nobody else is left; and no later
/// broadcast, whoever sends it, reaches the departed peer.
pub proof fn lemma_departure(
    peers: Map<u64, MailboxView>,
    session: SessionView,
    event: SessionEventView,
    later: Seq<(u64, MessageView)>,
)
    requires
        session.state == SessionState::Joined,
        event.is_disconnect(),
    ensures
        session.step(event).state == SessionState::Closed,
        session.effect(event, peers) == after_leave(peers, session.identity, session.username),
        !after_leave(peers, session.identity, session.username).contains_key(session.identity),
        forall|other: u64| #[trigger]
            after_leave(peers, session.identity, session.username).contains_key(other) <==> {
                &&& other != session.identity
                &&& peers.contains_key(other)
                &&& peers[other].accepts()
            },
        forall|other: u64| #[trigger]
            after_leave(peers, session.identity, session.username).contains_key(other)
                ==> after_leave(peers, session.identity, session.username)[other]
                == peers[other].with_message(MessageView::Left { username: session.username }),
        !after_all(
            after_leave(peers, session.identity, session.username),
            later,
        ).contains_key(session.identity),
{
    let after = after_leave(peers, session.identity, session.username);
    lemma_broadcasts_register_nobody(after, later);
}

/// A peer whose mailbox is full or closed holds nobody up: a broadcast by
/// another peer still reaches everyone who can take it, the stalled peer is
/// unregistered, and no later broadcast reaches it.
pub proof fn lemma_stalled_peer_is_dropped(
    peers: Map<u64, MailboxView>,
    stalled: u64,
    sender: u64,
    message: MessageView,
    later: Seq<(u64, MessageView)>,
)
    requires
        peers.contains_key(stalled),
        !peers[stalled].accepts(),
        stalled != sender,
    ensures
        !after_broadcast(peers, sender, message).contains_key(stalled),
        forall|other: u64|
            other != sender && peers.contains_key(other) && peers[other].accepts() ==> {
                &&& #[trigger] after_broadcast(peers, sender, message).contains_key(other)
                &&& after_broadcast(peers, sender, message)[other] == peers[other].with_message(
                    message,
                )
            },
        !after_all(after_broadcast(peers, sender, message), later).contains_key(stalled),
{
    let after = after_broadcast(peers, sender, message);
    lemma_broadcasts_register_nobody(after, later);
}

} // verus!
