//! The writer task: what drains one peer's mailbox onto its transport.

use crate::message::wire_text;
use crate::registry::{after_close, after_take, outbound_of, Outbound, OutboundView, Registry};
use vstd::prelude::*;

verus! {

/// What the program has to do for a writer next.
#[derive(Debug)]
pub enum WriterAction {
    /// Write this line to the peer's transport, then ask again.
    Write(String),
    /// Nothing to write now; ask again when something was published.
    Wait,
    /// Stop: nothing will ever come again.
    Stop,
}

/// The mathematical value of a [`WriterAction`].
pub ghost enum WriterActionView {
    Write(Seq<char>),
    Wait,
    Stop,
}

impl View for WriterAction {
    type V = WriterActionView;

    open spec fn view(&self) -> WriterActionView {
        match *self {
            WriterAction::Write(line) => WriterActionView::Write(line@),
            WriterAction::Wait => WriterActionView::Wait,
            WriterAction::Stop => WriterActionView::Stop,
        }
    }
}

/// What a running writer does with what its mailbox yields.
pub open spec fn action_for(next: OutboundView) -> WriterActionView {
    match next {
        OutboundView::Message(message) => WriterActionView::Write(wire_text(message)),
        OutboundView::Empty => WriterActionView::Wait,
        OutboundView::Closed => WriterActionView::Stop,
    }
}

/// The mathematical value of a [`Writer`].
pub ghost struct WriterView {
    /// The connection whose mailbox the writer drains.
    pub identity: u64,
    /// Whether the writer still takes messages.
    pub running: bool,
}

/// The only consumer of one peer's mailbox, and the only writer to that
/// peer's transport.
#[derive(Debug)]
pub struct Writer {
    identity: u64,
    running: bool,
}

impl View for Writer {
    type V = WriterView;

    closed spec fn view(&self) -> WriterView {
        WriterView { identity: self.identity, running: self.running }
    }
}

impl Writer {
    /// A running writer for the mailbox registered under `identity`.
    pub fn new(identity: u64) -> (writer: Writer)
        ensures
            writer@ == (WriterView { identity, running: true }),
    {
        Writer { identity, running: true }
    }

    /// Whether the writer still takes messages.
    pub fn is_running(&self) -> (running: bool)
        ensures
            running == self@.running,
    {
        self.running
    }

    /// Takes the next message out of the mailbox and serializes it.
    ///
    /// A running writer whose mailbox holds a message takes the oldest one
    /// and hands back its line. With an empty open mailbox it waits. With a
    /// mailbox that is closed and empty, or gone from the registry, it stops
    /// for good. A stopped writer touches nothing.
    pub fn next(&mut self, registry: &mut Registry) -> (action: WriterAction)
        ensures
            final(self)@.identity == old(self)@.identity,
            old(self)@.running ==> {
                &&& action@ == action_for(outbound_of(old(registry)@, old(self)@.identity))
                &&& final(registry)@ == after_take(old(registry)@, old(self)@.identity)
                &&& final(self)@.running == !(action@ is Stop)
            },
            !old(self)@.running ==> {
                &&& action@ is Stop
                &&& final(registry)@ == old(registry)@
                &&& !final(self)@.running
            },
    {
        if !self.running {
            return WriterAction::Stop;
        }
        match registry.take_next(self.identity) {
            Outbound::Message(message) => WriterAction::Write(message.to_text()),
            Outbound::Empty => WriterAction::Wait,
            Outbound::Closed => {
                self.running = false;
                WriterAction::Stop
            },
        }
    }

    /// Records that writing to the transport failed: the writer stops and
    /// its mailbox is closed. The registry entry stays; the next broadcast
    /// finds the peer unreachable and removes it.
    pub fn write_failed(&mut self, registry: &mut Registry)
        ensures
            final(self)@ == (WriterView { running: false, ..old(self)@ }),
            final(registry)@ == if old(self)@.running {
                after_close(old(registry)@, old(self)@.identity)
            } else {
                old(registry)@
            },
    {
        if self.running {
            registry.close(self.identity);
            self.running = false;
        }
    }
}

} // verus!
