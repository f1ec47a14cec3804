//! Messages that travel between peers, and their one-line wire form.

use std::sync::Arc;
use vstd::prelude::*;
use vstd::string::*;

verus! {

/// What one peer's writer puts on the wire for the others to read.
///
/// A message is never changed after it was built; it is shared read-only by
/// every mailbox it was delivered to.
#[derive(Debug, PartialEq, Eq)]
pub enum Message {
    /// A peer completed the handshake under this name.
    Joined { username: String },
    /// A peer that had joined under this name is gone.
    Left { username: String },
    /// One line of chat.
    Chat { sender: String, content: String },
}

/// The mathematical value of a [`Message`]: its strings as character sequences.
pub ghost enum MessageView {
    Joined { username: Seq<char> },
    Left { username: Seq<char> },
    Chat { sender: Seq<char>, content: Seq<char> },
}

impl View for Message {
    type V = MessageView;

    open spec fn view(&self) -> MessageView {
        match *self {
            Message::Joined { username } => MessageView::Joined { username: username@ },
            Message::Left { username } => MessageView::Left { username: username@ },
            Message::Chat { sender, content } => MessageView::Chat {
                sender: sender@,
                content: content@,
            },
        }
    }
}

/// The line that greets a fresh connection: `Enter your username:`.
pub open spec fn prompt_text() -> Seq<char> {
    seq![
        'E', 'n', 't', 'e', 'r', ' ', 'y', 'o', 'u', 'r', ' ', 'u', 's', 'e', 'r', 'n', 'a', 'm',
        'e', ':',
    ]
}

/// The wire form of a message, without the line terminator:
/// `[<username>] :)` for a join, `[<username> :(]` for a departure and
/// `<sender>: <content>` for chat.
pub open spec fn wire_text(message: MessageView) -> Seq<char> {
    match message {
        MessageView::Joined { username } => seq!['['] + username + seq![']', ' ', ':', ')'],
        MessageView::Left { username } => seq!['['] + username + seq![' ', ':', '(', ']'],
        MessageView::Chat { sender, content } => sender + seq![':', ' '] + content,
    }
}

/// `Arc::clone`: a second handle to the same allocation, so the value behind
/// the result is the value behind the argument.
#[verifier::external_body]
pub(crate) fn share(message: &Arc<Message>) -> (shared: Arc<Message>)
    ensures
        shared == *message,
{
    Arc::clone(message)
}

/// The prompt written to a connection right after it was accepted.
pub fn prompt() -> (text: String)
    ensures
        text@ == prompt_text(),
{
    proof {
        reveal_strlit("Enter your username:");
    }
    String::from_str("Enter your username:")
}

impl Message {
    /// The notice that `username` has joined.
    pub fn user_joined(username: &str) -> (message: Message)
        ensures
            message@ == (MessageView::Joined { username: username@ }),
    {
        Message::Joined { username: String::from_str(username) }
    }

    /// The notice that `username` has left.
    pub fn user_left(username: &str) -> (message: Message)
        ensures
            message@ == (MessageView::Left { username: username@ }),
    {
        Message::Left { username: String::from_str(username) }
    }

    /// One line of chat, `content`, said by `sender`.
    pub fn chat(sender: &str, content: &str) -> (message: Message)
        ensures
            message@ == (MessageView::Chat { sender: sender@, content: content@ }),
    {
        Message::Chat { sender: String::from_str(sender), content: String::from_str(content) }
    }

    /// Serializes the message to the line that goes on the wire.
    pub fn to_text(&self) -> (text: String)
        ensures
            text@ == wire_text(self@),
    {
        proof {
            reveal_strlit("[");
            reveal_strlit("] :)");
            reveal_strlit(" :(]");
            reveal_strlit(": ");
        }
        match self {
            Message::Joined { username } => {
                let mut text = String::from_str("[");
                text.append(username.as_str());
                text.append("] :)");
                text
            },
            Message::Left { username } => {
                let mut text = String::from_str("[");
                text.append(username.as_str());
                text.append(" :(]");
                text
            },
            Message::Chat { sender, content } => {
                let mut text = String::from_str(sender.as_str());
                text.append(": ");
                text.append(content.as_str());
                text
            },
        }
    }
}

} // verus!
