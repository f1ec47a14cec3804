//! The session handler: what one connection does from accept to close.
//!
//! The program around the library owns the transport. It tells the session
//! what the transport brought, and does what the session answers.

use crate::engine::publish;
use crate::mailbox::{Mailbox, MailboxView, MAX_MESSAGE};
use crate::message::{Message, MessageView};
use crate::registry::{after_broadcast, Registry};
use crate::text::{trim, trimmed};
use std::sync::Arc;
use vstd::prelude::*;

verus! {

/// Where a connection stands in its life.
#[derive(Debug, Clone, Copy, PartialEq, Eq, Structural)]
pub enum SessionState {
    /// Accepted by the listener; nothing was written or read yet.
    Connected,
    /// The prompt is out; the next line names the user.
    AwaitingUsername,
    /// Registered; every further line is chat.
    Joined,
    /// Over. Nothing more is read or published.
    Closed,
}

/// What the transport of a connection brought.
#[derive(Debug)]
pub enum SessionEvent {
    /// The listener handed the connection over.
    Accepted,
    /// One line of text arrived, without its terminator.
    Line(String),
    /// Reading from or writing to the transport failed.
    TransportFailed,
    /// The client closed the stream.
    EndOfStream,
}

/// The mathematical value of a [`SessionEvent`].
pub ghost enum SessionEventView {
    Accepted,
    Line(Seq<char>),
    TransportFailed,
    EndOfStream,
}

impl View for SessionEvent {
    type V = SessionEventView;

    open spec fn view(&self) -> SessionEventView {
        match *self {
            SessionEvent::Accepted => SessionEventView::Accepted,
            SessionEvent::Line(line) => SessionEventView::Line(line@),
            SessionEvent::TransportFailed => SessionEventView::TransportFailed,
            SessionEvent::EndOfStream => SessionEventView::EndOfStream,
        }
    }
}

impl SessionEventView {
    /// Whether the event ends the connection.
    pub open spec fn is_disconnect(self) -> bool {
        self is TransportFailed || self is EndOfStream
    }
}

/// What the program has to do after an event was handled.
#[derive(Debug, Clone, Copy, PartialEq, Eq, Structural)]
pub enum SessionAction {
    /// Write the username prompt to the transport, then read on.
    WritePrompt,
    /// Start the writer for this connection's mailbox, then read on.
    StartWriter,
    /// Read the next line.
    ReadNext,
    /// Stop: the session is closed.
    Terminate,
    /// The event means nothing in this state; go on as before.
    Ignore,
}

/// The mathematical value of a [`Session`].
pub ghost struct SessionView {
    /// The connection's identity, the key of its registry entry.
    pub identity: u64,
    /// The name the user joined under; empty before the join.
    pub username: Seq<char>,
    /// Where the connection stands.
    pub state: SessionState,
}

/// The registry after the user `username` joined on connection `id`: the
/// connection has a fresh mailbox of [`MAX_MESSAGE`] places, and everybody
/// else was told.
pub open spec fn after_join(peers: Map<u64, MailboxView>, id: u64, username: Seq<char>) -> Map<
    u64,
    MailboxView,
> {
    after_broadcast(
        peers.insert(id, MailboxView::empty(MAX_MESSAGE as nat)),
        id,
        MessageView::Joined { username },
    )
}

/// The registry after the user `username` on connection `id` said `line`.
pub open spec fn after_chat(
    peers: Map<u64, MailboxView>,
    id: u64,
    username: Seq<char>,
    line: Seq<char>,
) -> Map<u64, MailboxView> {
    after_broadcast(peers, id, MessageView::Chat { sender: username, content: line })
}

/// The registry after the user `username` on connection `id` left: the
/// connection has no entry any more, and everybody else was told.
pub open spec fn after_leave(peers: Map<u64, MailboxView>, id: u64, username: Seq<char>) -> Map<
    u64,
    MailboxView,
> {
    after_broadcast(peers.remove(id), id, MessageView::Left { username })
}

impl SessionView {
    /// The session after `event`.
    pub open spec fn step(self, event: SessionEventView) -> SessionView {
        match self.state {
            SessionState::Connected => {
                if event is Accepted {
                    SessionView { state: SessionState::AwaitingUsername, ..self }
                } else if event.is_disconnect() {
                    SessionView { state: SessionState::Closed, ..self }
                } else {
                    self
                }
            },
            SessionState::AwaitingUsername => {
                match event {
                    SessionEventView::Line(line) => SessionView {
                        username: trimmed(line),
                        state: SessionState::Joined,
                        ..self
                    },
                    SessionEventView::Accepted => self,
                    _ => SessionView { state: SessionState::Closed, ..self },
                }
            },
            SessionState::Joined => {
                if event.is_disconnect() {
                    SessionView { state: SessionState::Closed, ..self }
                } else {
                    self
                }
            },
            SessionState::Closed => self,
        }
    }

    /// What handling `event` does to the registry.
    pub open spec fn effect(self, event: SessionEventView, peers: Map<u64, MailboxView>) -> Map<
        u64,
        MailboxView,
    > {
        match (self.state, event) {
            (SessionState::AwaitingUsername, SessionEventView::Line(line)) => after_join(
                peers,
                self.identity,
                trimmed(line),
            ),
            (SessionState::Joined, SessionEventView::Line(line)) => after_chat(
                peers,
                self.identity,
                self.username,
                line,
            ),
            (SessionState::Joined, SessionEventView::TransportFailed) => after_leave(
                peers,
                self.identity,
                self.username,
            ),
            (SessionState::Joined, SessionEventView::EndOfStream) => after_leave(
                peers,
                self.identity,
                self.username,
            ),
            _ => peers,
        }
    }

    /// What the program has to do after `event`.
    pub open spec fn action(self, event: SessionEventView) -> SessionAction {
        match self.state {
            SessionState::Connected => {
                if event is Accepted {
                    SessionAction::WritePrompt
                } else if event.is_disconnect() {
                    SessionAction::Terminate
                } else {
                    SessionAction::Ignore
                }
            },
            SessionState::AwaitingUsername => {
                match event {
                    SessionEventView::Line(_) => SessionAction::StartWriter,
                    SessionEventView::Accepted => SessionAction::Ignore,
                    _ => SessionAction::Terminate,
                }
            },
            SessionState::Joined => {
                match event {
                    SessionEventView::Line(_) => SessionAction::ReadNext,
                    SessionEventView::Accepted => SessionAction::Ignore,
                    _ => SessionAction::Terminate,
                }
            },
            SessionState::Closed => SessionAction::Terminate,
        }
    }
}

/// The control state of one connection.
#[derive(Debug)]
pub struct Session {
    identity: u64,
    username: String,
    state: SessionState,
}

impl View for Session {
    type V = SessionView;

    closed spec fn view(&self) -> SessionView {
        SessionView { identity: self.identity, username: self.username@, state: self.state }
    }
}

impl Session {
    /// The session of a connection that was just accepted under `identity`.
    pub fn new(identity: u64) -> (session: Session)
        ensures
            session@ == (SessionView {
                identity,
                username: Seq::empty(),
                state: SessionState::Connected,
            }),
    {
        Session { identity, username: String::new(), state: SessionState::Connected }
    }

    /// The connection's identity.
    pub fn identity(&self) -> (identity: u64)
        ensures
            identity == self@.identity,
    {
        self.identity
    }

    /// The name the user joined under; empty before the join.
    pub fn username(&self) -> (username: &str)
        ensures
            username@ == self@.username,
    {
        self.username.as_str()
    }

    /// Where the connection stands.
    pub fn state(&self) -> (state: SessionState)
        ensures
            state == self@.state,
    {
        self.state
    }

    /// Handles one event of the connection's transport.
    ///
    /// After the prompt, the first line, trimmed, becomes the username: the
    /// connection is registered with an empty mailbox and a join notice goes to
    /// everybody else. Every later line is published as chat under that name.
    /// When the transport fails or ends, a joined connection is unregistered
    /// and a departure notice goes to those who remain; one that had not
    /// joined closes without a word.
    pub fn handle(&mut self, registry: &mut Registry, event: SessionEvent) -> (action:
        SessionAction)
        ensures
            final(self)@ == old(self)@.step(event@),
            final(registry)@ == old(self)@.effect(event@, old(registry)@),
            action == old(self)@.action(event@),
    {
        match self.state {
            SessionState::Connected => {
                match event {
                    SessionEvent::Accepted => {
                        self.state = SessionState::AwaitingUsername;
                        SessionAction::WritePrompt
                    },
                    SessionEvent::Line(_) => SessionAction::Ignore,
                    SessionEvent::TransportFailed | SessionEvent::EndOfStream => {
                        self.state = SessionState::Closed;
                        SessionAction::Terminate
                    },
                }
            },
            SessionState::AwaitingUsername => {
                match event {
                    SessionEvent::Line(line) => {
                        let username = trim(line.as_str());
                        registry.register(self.identity, Mailbox::new(MAX_MESSAGE));
                        let notice = Arc::new(Message::user_joined(username.as_str()));
                        publish(registry, self.identity, notice);
                        self.username = username;
                        self.state = SessionState::Joined;
                        SessionAction::StartWriter
                    },
                    SessionEvent::Accepted => SessionAction::Ignore,
                    SessionEvent::TransportFailed | SessionEvent::EndOfStream => {
                        self.state = SessionState::Closed;
                        SessionAction::Terminate
                    },
                }
            },
            SessionState::Joined => {
                match event {
                    SessionEvent::Line(line) => {
                        let message = Arc::new(
                            Message::chat(self.username.as_str(), line.as_str()),
                        );
                        publish(registry, self.identity, message);
                        SessionAction::ReadNext
                    },
                    SessionEvent::Accepted => SessionAction::Ignore,
                    SessionEvent::TransportFailed | SessionEvent::EndOfStream => {
                        registry.unregister(self.identity);
                        let notice = Arc::new(Message::user_left(self.username.as_str()));
                        publish(registry, self.identity, notice);
                        self.state = SessionState::Closed;
                        SessionAction::Terminate
                    },
                }
            },
            SessionState::Closed => SessionAction::Terminate,
        }
    }
}

} // verus!
