use vstd::prelude::*;

verus! {

/// One chat event, as exchanged between clients and the relay.
#[derive(Clone, Debug, PartialEq, Eq)]
pub enum ChatMessage {
    /// Chat text; the signature is carried for display and never checked.
    TextMessage { username: String, content: String, signature: Option<String> },
    /// Informational text produced by the server.
    SystemMessage { content: String },
    /// Sent by a client to name its connection; never rebroadcast.
    ConnectionUsername { username: String },
}

/// The mathematical value of a `ChatMessage`.
pub enum MessageView {
    Text { username: Seq<char>, content: Seq<char>, signature: Option<Seq<char>> },
    System { content: Seq<char> },
    Identity { username: Seq<char> },
}

pub open spec fn opt_view(s: Option<String>) -> Option<Seq<char>> {
    match s {
        Some(v) => Some(v@),
        None => None,
    }
}

impl View for ChatMessage {
    type V = MessageView;

    open spec fn view(&self) -> MessageView {
        match self {
            ChatMessage::TextMessage { username, content, signature } => MessageView::Text {
                username: username@,
                content: content@,
                signature: opt_view(*signature),
            },
            ChatMessage::SystemMessage { content } => MessageView::System { content: content@ },
            ChatMessage::ConnectionUsername { username } => MessageView::Identity {
                username: username@,
            },
        }
    }
}

/// Text announcing that `name` joined.
pub open spec fn arrival_text(name: Seq<char>) -> Seq<char> {
    name + " connected to chat"@
}

/// Text announcing that `name` left.
pub open spec fn departure_text(name: Seq<char>) -> Seq<char> {
    name + " disconnected from chat"@
}

/// Text sent back to a client that tried to send a system message.
pub open spec fn rejection_text() -> Seq<char> {
    "Cannot send system messages"@
}

impl ChatMessage {
    pub open spec fn is_text(&self) -> bool {
        self is TextMessage
    }

    /// The system message announcing that `name` connected.
    pub fn arrival(name: &String) -> (r: ChatMessage)
        ensures
            r@ == (MessageView::System { content: arrival_text(name@) }),
    {
        let content = name.clone().concat(" connected to chat");
        ChatMessage::SystemMessage { content }
    }

    /// The system message announcing that `name` disconnected.
    pub fn departure(name: &String) -> (r: ChatMessage)
        ensures
            r@ == (MessageView::System { content: departure_text(name@) }),
    {
        let content = name.clone().concat(" disconnected from chat");
        ChatMessage::SystemMessage { content }
    }

    /// The system message that answers a client's forged system message.
    pub fn rejection() -> (r: ChatMessage)
        ensures
            r@ == (MessageView::System { content: rejection_text() }),
    {
        ChatMessage::SystemMessage { content: String::from_str("Cannot send system messages") }
    }

    /// An unsigned chat text from `username`.
    pub fn anonymous_text(username: &String, content: String) -> (r: ChatMessage)
        ensures
            r@ == (MessageView::Text { username: username@, content: content@, signature: None }),
    {
        ChatMessage::TextMessage { username: username.clone(), content, signature: None }
    }
}

} // verus!
