//! The ways in which a connection to a server can fail.

use vstd::prelude::*;
use vstd::string::StringExecFns;

verus! {

/// Why a handshake or a session ended in failure.
#[derive(Debug, Clone, PartialEq, Eq)]
pub enum MineChatError {
    /// The connection was refused or reset, or reading or writing it failed.
    Transport(String),
    /// A message could not be written as one line of text.
    Encoding,
    /// A line from the peer is not a message of the protocol.
    Decoding,
    /// No identity is on record for the server, so it was never contacted.
    ServerNotLinked,
    /// The server rejected the client, or answered with something other than
    /// an acknowledgement.
    AuthFailed(String),
    /// The identity store is unavailable.
    Config(String),
    /// The peer closed the connection before it answered.
    ConnectionClosed,
}

/// The model of a [`MineChatError`].
pub enum Failure {
    Transport(Seq<char>),
    Encoding,
    Decoding,
    ServerNotLinked,
    AuthFailed(Seq<char>),
    Config(Seq<char>),
    ConnectionClosed,
}

impl View for MineChatError {
    type V = Failure;

    open spec fn view(&self) -> Failure {
        match *self {
            MineChatError::Transport(detail) => Failure::Transport(detail@),
            MineChatError::Encoding => Failure::Encoding,
            MineChatError::Decoding => Failure::Decoding,
            MineChatError::ServerNotLinked => Failure::ServerNotLinked,
            MineChatError::AuthFailed(message) => Failure::AuthFailed(message@),
            MineChatError::Config(detail) => Failure::Config(detail@),
            MineChatError::ConnectionClosed => Failure::ConnectionClosed,
        }
    }
}

impl Failure {
    /// The text shown to the user for a failure.
    pub open spec fn message(self) -> Seq<char> {
        match self {
            Failure::Transport(detail) => "I/O error: "@ + detail,
            Failure::Encoding => "Message cannot be sent as a single line"@,
            Failure::Decoding => "Malformed message"@,
            Failure::ServerNotLinked => "Server not linked"@,
            Failure::AuthFailed(message) => "Authentication failed: "@ + message,
            Failure::Config(detail) => "Config error: "@ + detail,
            Failure::ConnectionClosed => "Connection closed"@,
        }
    }
}

impl MineChatError {
    /// The text shown to the user for this error.
    pub fn message(&self) -> (text: String)
        ensures
            text@ == self@.message(),
    {
        match self {
            MineChatError::Transport(detail) => String::from_str("I/O error: ").concat(
                detail.as_str(),
            ),
            MineChatError::Encoding => String::from_str("Message cannot be sent as a single line"),
            MineChatError::Decoding => String::from_str("Malformed message"),
            MineChatError::ServerNotLinked => String::from_str("Server not linked"),
            MineChatError::AuthFailed(message) => String::from_str(
                "Authentication failed: ",
            ).concat(message.as_str()),
            MineChatError::Config(detail) => String::from_str("Config error: ").concat(
                detail.as_str(),
            ),
            MineChatError::ConnectionClosed => String::from_str("Connection closed"),
        }
    }
}

} // verus!
