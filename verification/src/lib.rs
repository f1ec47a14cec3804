//! The core of a line-oriented broadcast chat server.
//!
//! Peers join under a display name; every line a peer sends is fanned out to
//! the bounded mailbox of every other registered peer. A peer whose mailbox is
//! full or closed is dropped from the registry instead of holding up the rest.
//! Sockets, tasks and framing are left to the program around this library:
//! it feeds the session and writer decisions here with what happened on the
//! wire and carries out what they answer.
//!
//! - [`message`]: the messages and their wire form.
//! - [`mailbox`]: the bounded queue in front of each peer's writer.
//! - [`registry`]: who is connected, and the broadcast to everyone but one.
//! - [`engine`]: publishing on behalf of a sender.
//! - [`session`]: the life of one connection, event by event.
//! - [`writer`]: draining one mailbox onto its transport.
//! - [`text`]: trimming of the username line.
//! - [`laws`]: what holds over whole runs of joins, chats and departures.
//! - [`peers`]: the `dashmap` calls that the registry rests on, unproved.
//!
//! The registry is changed through unique references only. A program with
//! many tasks puts it behind a lock and holds the lock for one call at a
//! time; no call here waits for anything.

pub mod engine;
pub mod laws;
pub mod mailbox;
pub mod message;
pub mod peers;
pub mod registry;
pub mod session;
pub mod text;
pub mod writer;
