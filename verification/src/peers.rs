//! The concurrent map of the `dashmap` crate, as the store behind the peer
//! registry.
//!
//! Nothing in this file is proved: each function states what `dashmap` does.
//! Every function that changes the map takes it by unique reference, so no
//! other thread can touch it between the two states a contract relates.

use crate::mailbox::{Mailbox, MailboxView};
use dashmap::DashMap;
use vstd::prelude::*;

verus! {

/// `dashmap::DashMap`, as a type whose inside is not looked into.
#[verifier::external_type_specification]
#[verifier::external_body]
#[verifier::reject_recursive_types(K)]
#[verifier::reject_recursive_types(V)]
#[verifier::reject_recursive_types(S)]
pub struct ExDashMap<K, V, S>(DashMap<K, V, S>);

/// The entries that a map of peers holds: each identity with the value of
/// its mailbox.
pub uninterp spec fn entries(peers: DashMap<u64, Mailbox>) -> Map<u64, MailboxView>;

/// A set of exactly `n` identities.
pub open spec fn counts(ids: Set<u64>, n: nat) -> bool {
    ids.finite() && ids.len() == n
}

/// `DashMap::new`: a map without entries.
#[verifier::external_body]
pub(crate) fn peers_new() -> (fresh: DashMap<u64, Mailbox>)
    ensures
        entries(fresh) == (Map::<u64, MailboxView>::empty()),
{
    DashMap::new()
}

/// `DashMap::insert`: afterwards `id` maps to `mailbox`, whatever it mapped
/// to before, and every other entry is as it was.
#[verifier::external_body]
pub(crate) fn peers_insert(peers: &mut DashMap<u64, Mailbox>, id: u64, mailbox: Mailbox)
    ensures
        entries(*final(peers)) == entries(*old(peers)).insert(id, mailbox@),
{
    peers.insert(id, mailbox);
}

/// `DashMap::remove`: afterwards `id` has no entry and every other entry is
/// as it was. The mailbox that `id` had comes back, if it had one.
#[verifier::external_body]
pub(crate) fn peers_remove(peers: &mut DashMap<u64, Mailbox>, id: u64) -> (removed: Option<Mailbox>)
    ensures
        entries(*final(peers)) == entries(*old(peers)).remove(id),
        match removed {
            Some(mailbox) => entries(*old(peers)).contains_key(id) && mailbox@ == entries(
                *old(peers),
            )[id],
            None => !entries(*old(peers)).contains_key(id),
        },
{
    peers.remove(&id).map(|(_, mailbox)| mailbox)
}

/// `DashMap::iter`, keys only: every identity that has an entry, once, in
/// an order that is not specified.
#[verifier::external_body]
pub(crate) fn peers_ids(peers: &DashMap<u64, Mailbox>) -> (ids: Vec<u64>)
    ensures
        ids@.no_duplicates(),
        ids@.to_set() == entries(*peers).dom(),
{
    peers.iter().map(|entry| *entry.key()).collect()
}

/// `DashMap::len`: the map holds finitely many entries, and this is their number.
#[verifier::external_body]
pub(crate) fn peers_len(peers: &DashMap<u64, Mailbox>) -> (n: usize)
    ensures
        counts(entries(*peers).dom(), n as nat),
{
    peers.len()
}

/// `DashMap::contains_key`: whether `id` has an entry.
#[verifier::external_body]
pub(crate) fn peers_contains(peers: &DashMap<u64, Mailbox>, id: u64) -> (present: bool)
    ensures
        present == entries(*peers).contains_key(id),
{
    peers.contains_key(&id)
}

} // verus!
