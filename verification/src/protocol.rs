//! The messages of the protocol and their mathematical model.

use crate::text::same_text;
use vstd::prelude::*;

verus! {

/// Payload of an `AUTH` message. `link_code` is empty when the client
/// authenticates with an identity that the server issued earlier.
#[derive(Debug, Clone, PartialEq, Eq)]
pub struct AuthPayload {
    pub client_uuid: String,
    pub link_code: String,
}

/// Payload of an `AUTH_ACK` message. `status` is `"success"` when the server
/// accepted the client; any other status is a rejection.
#[derive(Debug, Clone, PartialEq, Eq)]
pub struct AuthAckPayload {
    pub status: String,
    pub message: String,
    pub minecraft_uuid: Option<String>,
    pub username: Option<String>,
}

/// Payload of a `CHAT` message: a line the user typed.
#[derive(Debug, Clone, PartialEq, Eq)]
pub struct ChatPayload {
    pub message: String,
}

/// Payload of a `BROADCAST` message: a line the server asks to be displayed.
#[derive(Debug, Clone, PartialEq, Eq)]
pub struct BroadcastPayload {
    pub from: String,
    pub message: String,
}

/// Payload of a `DISCONNECT` message, which either peer may send last.
#[derive(Debug, Clone, PartialEq, Eq)]
pub struct DisconnectPayload {
    pub reason: String,
}

/// One protocol message.
#[derive(Debug, Clone, PartialEq, Eq)]
#[allow(inconsistent_fields)]
pub enum MineChatMessage {
    Auth { payload: AuthPayload },
    AuthAck { payload: AuthAckPayload },
    Chat { payload: ChatPayload },
    Broadcast { payload: BroadcastPayload },
    Disconnect { payload: DisconnectPayload },
}

/// The model of a message: the variant and the text of each field.
pub enum Envelope {
    Auth { client_uuid: Seq<char>, link_code: Seq<char> },
    AuthAck {
        status: Seq<char>,
        message: Seq<char>,
        minecraft_uuid: Option<Seq<char>>,
        username: Option<Seq<char>>,
    },
    Chat { message: Seq<char> },
    Broadcast { from: Seq<char>, message: Seq<char> },
    Disconnect { reason: Seq<char> },
}

/// The text of an optional string.
pub open spec fn text_view(text: Option<String>) -> Option<Seq<char>> {
    match text {
        Some(t) => Some(t@),
        None => None,
    }
}

impl View for MineChatMessage {
    type V = Envelope;

    open spec fn view(&self) -> Envelope {
        match *self {
            MineChatMessage::Auth { payload } => Envelope::Auth {
                client_uuid: payload.client_uuid@,
                link_code: payload.link_code@,
            },
            MineChatMessage::AuthAck { payload } => Envelope::AuthAck {
                status: payload.status@,
                message: payload.message@,
                minecraft_uuid: text_view(payload.minecraft_uuid),
                username: text_view(payload.username),
            },
            MineChatMessage::Chat { payload } => Envelope::Chat { message: payload.message@ },
            MineChatMessage::Broadcast { payload } => Envelope::Broadcast {
                from: payload.from@,
                message: payload.message@,
            },
            MineChatMessage::Disconnect { payload } => Envelope::Disconnect {
                reason: payload.reason@,
            },
        }
    }
}

/// Whether two optional strings hold the same text, or both none.
pub fn same_optional_text(left: &Option<String>, right: &Option<String>) -> (same: bool)
    ensures
        same == (text_view(*left) == text_view(*right)),
{
    match (left, right) {
        (Some(a), Some(b)) => same_text(a.as_str(), b.as_str()),
        (None, None) => true,
        _ => false,
    }
}

impl MineChatMessage {
    /// Whether two messages are of the same kind and agree in every field.
    pub fn same(&self, other: &MineChatMessage) -> (same: bool)
        ensures
            same == (self@ == other@),
    {
        match (self, other) {
            (MineChatMessage::Auth { payload: a }, MineChatMessage::Auth { payload: b }) => {
                same_text(a.client_uuid.as_str(), b.client_uuid.as_str()) && same_text(
                    a.link_code.as_str(),
                    b.link_code.as_str(),
                )
            },
            (MineChatMessage::AuthAck { payload: a }, MineChatMessage::AuthAck { payload: b }) => {
                same_text(a.status.as_str(), b.status.as_str()) && same_text(
                    a.message.as_str(),
                    b.message.as_str(),
                ) && same_optional_text(&a.minecraft_uuid, &b.minecraft_uuid)
                    && same_optional_text(&a.username, &b.username)
            },
            (MineChatMessage::Chat { payload: a }, MineChatMessage::Chat { payload: b }) => {
                same_text(a.message.as_str(), b.message.as_str())
            },
            (
                MineChatMessage::Broadcast { payload: a },
                MineChatMessage::Broadcast { payload: b },
            ) => {
                same_text(a.from.as_str(), b.from.as_str()) && same_text(
                    a.message.as_str(),
                    b.message.as_str(),
                )
            },
            (
                MineChatMessage::Disconnect { payload: a },
                MineChatMessage::Disconnect { payload: b },
            ) => same_text(a.reason.as_str(), b.reason.as_str()),
            _ => false,
        }
    }
}

} // verus!
