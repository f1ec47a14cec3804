//! The broadcast engine: what a session calls to reach everybody else.

use crate::message::Message;
use crate::registry::{after_broadcast, Registry};
use std::sync::Arc;
use vstd::prelude::*;

verus! {

/// Publishes `message` on behalf of `sender`: every other registered peer
/// that can take it gets it queued behind what it already has to read; the
/// sender never gets its own message.
pub fn publish(registry: &mut Registry, sender: u64, message: Arc<Message>)
    ensures
        final(registry)@ == after_broadcast(old(registry)@, sender, message@),
{
    registry.broadcast_except(sender, message);
}

} // verus!
