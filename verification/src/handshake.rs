//! The handshake: one request, one answer, and the client is in or out.
//!
//! A handshake starts in `Start`. Beginning it yields the one `AUTH` frame
//! to write and moves it to `AwaitingAck`. What comes back settles it:
//! an acknowledgement with status `success` moves it to `Authenticated`,
//! anything else to `Rejected`. Both are final. Nothing is tried twice.
//!
//! There are two flows. Linking presents a code that the user got from the
//! server, together with a fresh identity; when the server accepts, the
//! identity is written to the record under the server's address. Reconnecting
//! presents the identity on record and no code; without an identity on
//! record there is nothing to present and no handshake.

use crate::codec::{decode, encode, frame_envelope, frame_of};
use crate::error::{Failure, MineChatError};
use crate::protocol::{AuthPayload, Envelope, MineChatMessage};
use crate::session::{Session, SessionModel};
use crate::store::{entries_for, identity_for, lemma_upsert_replaces, upserted, Links, ServerConfig};
use crate::text::same_text;
use vstd::prelude::*;
use vstd::string::StringExecFns;

verus! {

/// Where a handshake stands.
#[derive(Debug, Clone, Copy, PartialEq, Eq)]
pub enum HandshakeState {
    /// Nothing was sent yet.
    Start,
    /// The request was handed out and the answer is awaited.
    AwaitingAck,
    /// The server accepted the client.
    Authenticated,
    /// The server rejected the client, or the exchange failed.
    Rejected,
}

/// How the client authenticates.
#[derive(Debug, Clone, Copy, PartialEq, Eq)]
pub enum Flow {
    /// With a link code, for the first time.
    Link,
    /// With the identity on record.
    Reconnect,
}

/// One handshake with one server.
#[derive(Debug, Clone, PartialEq, Eq)]
pub struct Handshake {
    state: HandshakeState,
    address: String,
    identity: String,
    link_code: Option<String>,
}

/// The model of a [`Handshake`]. A link code is there exactly in the link flow.
pub struct HandshakeModel {
    pub state: HandshakeState,
    pub address: Seq<char>,
    pub identity: Seq<char>,
    pub link_code: Option<Seq<char>>,
}

impl View for Handshake {
    type V = HandshakeModel;

    closed spec fn view(&self) -> HandshakeModel {
        HandshakeModel {
            state: self.state,
            address: self.address@,
            identity: self.identity@,
            link_code: match self.link_code {
                Some(code) => Some(code@),
                None => None,
            },
        }
    }
}

/// What is to be done after a step of the handshake.
#[derive(Debug, Clone, PartialEq, Eq)]
pub enum Step {
    /// Write this frame to the server and wait for its answer.
    Send(Vec<u8>),
    /// The client is in: the session can begin. `message` is what the server
    /// said when it accepted.
    Authenticated { session: Session, message: String },
    /// The client is out, for this reason.
    Rejected(MineChatError),
    /// Nothing: the event has no meaning where the handshake stands.
    Ignored,
}

/// The model of a [`Step`].
pub enum StepModel {
    Send(Seq<u8>),
    Authenticated { session: SessionModel, message: Seq<char> },
    Rejected(Failure),
    Ignored,
}

impl View for Step {
    type V = StepModel;

    open spec fn view(&self) -> StepModel {
        match *self {
            Step::Send(frame) => StepModel::Send(frame@),
            Step::Authenticated { session, message } => StepModel::Authenticated {
                session: session@,
                message: message@,
            },
            Step::Rejected(error) => StepModel::Rejected(error@),
            Step::Ignored => StepModel::Ignored,
        }
    }
}

/// What the server's answer means: `Ok` with what the server said where it
/// accepts, and the reason for the rejection where it does not. A rejection
/// by the server carries the server's message as it came; any message other
/// than an acknowledgement is a rejection too.
pub open spec fn verdict(reply: Envelope) -> Result<Seq<char>, Failure> {
    match reply {
        Envelope::AuthAck { status, message, .. } => if status == "success"@ {
            Ok(message)
        } else {
            Err(Failure::AuthFailed(message))
        },
        _ => Err(Failure::AuthFailed("Unexpected response"@)),
    }
}

impl HandshakeModel {
    /// The flow of this handshake.
    pub open spec fn flow(self) -> Flow {
        if self.link_code is Some {
            Flow::Link
        } else {
            Flow::Reconnect
        }
    }

    /// Whether the handshake is over.
    pub open spec fn finished(self) -> bool {
        self.state is Authenticated || self.state is Rejected
    }

    /// The request of this handshake: the identity, and the link code or,
    /// when reconnecting, the empty text in its place.
    pub open spec fn request(self) -> Envelope {
        Envelope::Auth {
            client_uuid: self.identity,
            link_code: match self.link_code {
                Some(code) => code,
                None => Seq::empty(),
            },
        }
    }

    /// The handshake moved to another state.
    pub open spec fn at(self, state: HandshakeState) -> HandshakeModel {
        HandshakeModel { state, ..self }
    }

    /// The session that begins when this handshake succeeds.
    pub open spec fn session(self) -> SessionModel {
        SessionModel { address: self.address, identity: self.identity, alive: true }
    }

    /// Beginning: from `Start` the request goes out as a frame and the answer
    /// is awaited; a request that has no frame ends the handshake.
    pub open spec fn begin(self) -> (HandshakeModel, StepModel) {
        if self.state is Start {
            match frame_of(self.request()) {
                Some(frame) => (self.at(HandshakeState::AwaitingAck), StepModel::Send(frame)),
                None => (
                    self.at(HandshakeState::Rejected),
                    StepModel::Rejected(Failure::Encoding),
                ),
            }
        } else {
            (self, StepModel::Ignored)
        }
    }

    /// The server's answer arrived as a message: it settles a handshake that
    /// awaits it. In the link flow an accepted identity is written to the record.
    pub open spec fn receive(self, reply: Envelope, links: Links) -> (
        HandshakeModel,
        StepModel,
        Links,
    ) {
        if self.state is AwaitingAck {
            match verdict(reply) {
                Ok(message) => (
                    self.at(HandshakeState::Authenticated),
                    StepModel::Authenticated { session: self.session(), message },
                    if self.flow() is Link {
                        upserted(links, self.address, self.identity)
                    } else {
                        links
                    },
                ),
                Err(failure) => (
                    self.at(HandshakeState::Rejected),
                    StepModel::Rejected(failure),
                    links,
                ),
            }
        } else {
            (self, StepModel::Ignored, links)
        }
    }

    /// The exchange broke off for a reason of its own: that ends a handshake
    /// which awaits the answer.
    pub open spec fn abort(self, failure: Failure) -> (HandshakeModel, StepModel) {
        if self.state is AwaitingAck {
            (self.at(HandshakeState::Rejected), StepModel::Rejected(failure))
        } else {
            (self, StepModel::Ignored)
        }
    }

    /// The server's answer arrived as a line: a line that carries no message
    /// ends the handshake, any other is taken as the message it carries.
    pub open spec fn receive_line(self, line: Seq<u8>, links: Links) -> (
        HandshakeModel,
        StepModel,
        Links,
    ) {
        match frame_envelope(line) {
            Some(reply) => self.receive(reply, links),
            None => (self.abort(Failure::Decoding).0, self.abort(Failure::Decoding).1, links),
        }
    }

    /// The connection failed: that ends a handshake which is not over yet.
    pub open spec fn fail(self, detail: Seq<char>) -> (HandshakeModel, StepModel) {
        if self.finished() {
            (self, StepModel::Ignored)
        } else {
            (
                self.at(HandshakeState::Rejected),
                StepModel::Rejected(Failure::Transport(detail)),
            )
        }
    }
}

/// A handshake hands out its request once: after it has begun, beginning it
/// again yields nothing.
pub proof fn lemma_one_request(handshake: HandshakeModel)
    ensures
        handshake.begin().0.begin() == (handshake.begin().0, StepModel::Ignored),
        handshake.begin().1 is Send ==> handshake.state is Start && handshake.begin().0.state
            is AwaitingAck,
{
}

/// A handshake that is over stays as it is: nothing moves it, nothing is
/// sent, and the record is not touched.
pub proof fn lemma_finished_is_final(
    handshake: HandshakeModel,
    reply: Envelope,
    line: Seq<u8>,
    failure: Failure,
    detail: Seq<char>,
    links: Links,
)
    requires
        handshake.finished(),
    ensures
        handshake.begin() == (handshake, StepModel::Ignored),
        handshake.receive(reply, links) == (handshake, StepModel::Ignored, links),
        handshake.receive_line(line, links) == (handshake, StepModel::Ignored, links),
        handshake.abort(failure) == (handshake, StepModel::Ignored),
        handshake.fail(detail) == (handshake, StepModel::Ignored),
{
}

/// An answer always settles a handshake that awaits it: the handshake is
/// over afterwards, accepted exactly if the answer is an acknowledgement
/// with status `success`.
pub proof fn lemma_answer_settles(handshake: HandshakeModel, reply: Envelope, links: Links)
    requires
        handshake.state is AwaitingAck,
    ensures
        handshake.receive(reply, links).0.finished(),
        handshake.receive(reply, links).0.state is Authenticated <==> verdict(reply) is Ok,
        verdict(reply) is Ok <==> (reply matches Envelope::AuthAck { status, .. } && status
            == "success"@),
        handshake.receive(reply, links).0.state is Authenticated <==> handshake.receive(
            reply,
            links,
        ).1 is Authenticated,
{
}

/// A rejection by the server is passed on with the server's message as it came.
pub proof fn lemma_rejection_is_verbatim(
    handshake: HandshakeModel,
    status: Seq<char>,
    message: Seq<char>,
    minecraft_uuid: Option<Seq<char>>,
    username: Option<Seq<char>>,
    links: Links,
)
    requires
        handshake.state is AwaitingAck,
        status != "success"@,
    ensures
        handshake.receive(
            Envelope::AuthAck { status, message, minecraft_uuid, username },
            links,
        ) == (
            handshake.at(HandshakeState::Rejected),
            StepModel::Rejected(Failure::AuthFailed(message)),
            links,
        ),
{
}

/// When the server accepts a link, the record afterwards holds exactly one
/// entry for the server's address, and it holds the identity of this
/// handshake, whatever was on record for the address before.
pub proof fn lemma_link_records_identity(handshake: HandshakeModel, reply: Envelope, links: Links)
    requires
        handshake.state is AwaitingAck,
        handshake.flow() is Link,
        verdict(reply) is Ok,
    ensures
        identity_for(handshake.receive(reply, links).2, handshake.address) == Some(
            handshake.identity,
        ),
        entries_for(handshake.receive(reply, links).2, handshake.address) == 1,
{
    lemma_upsert_replaces(links, handshake.address, handshake.identity);
}

/// The record changes in one case only: a handshake in the link flow awaits
/// the answer and the server accepts. A rejection, a reconnect, a line that
/// is no message and a handshake that is not awaiting an answer leave the
/// record as it is.
pub proof fn lemma_record_changes_only_on_link(
    handshake: HandshakeModel,
    reply: Envelope,
    line: Seq<u8>,
    links: Links,
)
    ensures
        !(handshake.state is AwaitingAck && handshake.flow() is Link && verdict(reply) is Ok)
            ==> handshake.receive(reply, links).2 == links,
        !(handshake.state is AwaitingAck && handshake.flow() is Link && (frame_envelope(line)
            matches Some(answer) && verdict(answer) is Ok)) ==> handshake.receive_line(
            line,
            links,
        ).2 == links,
{
}

/// What the server's answer means.
pub fn judge(reply: MineChatMessage) -> (r: Result<String, MineChatError>)
    ensures
        match verdict(reply@) {
            Ok(message) => r matches Ok(text) && text@ == message,
            Err(failure) => r matches Err(error) && error@ == failure,
        },
{
    match reply {
        MineChatMessage::AuthAck { payload } => {
            if same_text(payload.status.as_str(), "success") {
                Ok(payload.message)
            } else {
                Err(MineChatError::AuthFailed(payload.message))
            }
        },
        _ => Err(MineChatError::AuthFailed(String::from_str("Unexpected response"))),
    }
}

impl Handshake {
    /// A handshake that links the client to a server for the first time,
    /// with the code the user got from the server and a fresh identity.
    pub fn link(address: &str, identity: &str, code: &str) -> (handshake: Handshake)
        ensures
            handshake@ == (HandshakeModel {
                state: HandshakeState::Start,
                address: address@,
                identity: identity@,
                link_code: Some(code@),
            }),
    {
        Handshake {
            state: HandshakeState::Start,
            address: address.to_owned(),
            identity: identity.to_owned(),
            link_code: Some(code.to_owned()),
        }
    }

    /// A handshake that reconnects the client to a server with the identity
    /// on record for it. Without one the result is `ServerNotLinked`.
    pub fn reconnect(config: &ServerConfig, address: &str) -> (r: Result<Handshake, MineChatError>)
        ensures
            match identity_for(config@, address@) {
                Some(identity) => r matches Ok(handshake) && handshake@ == (HandshakeModel {
                    state: HandshakeState::Start,
                    address: address@,
                    identity,
                    link_code: None,
                }),
                None => r matches Err(error) && error@ == Failure::ServerNotLinked,
            },
    {
        match config.lookup(address) {
            Some(identity) => Ok(
                Handshake {
                    state: HandshakeState::Start,
                    address: address.to_owned(),
                    identity,
                    link_code: None,
                },
            ),
            None => Err(MineChatError::ServerNotLinked),
        }
    }

    /// Where the handshake stands.
    pub fn state(&self) -> (state: HandshakeState)
        ensures
            state == self@.state,
    {
        self.state
    }

    /// The flow of the handshake.
    pub fn flow(&self) -> (flow: Flow)
        ensures
            flow == self@.flow(),
    {
        match self.link_code {
            Some(_) => Flow::Link,
            None => Flow::Reconnect,
        }
    }

    /// The address of the server.
    pub fn address(&self) -> (address: &str)
        ensures
            address@ == self@.address,
    {
        self.address.as_str()
    }

    /// The identity that the client presents.
    pub fn identity(&self) -> (identity: &str)
        ensures
            identity@ == self@.identity,
    {
        self.identity.as_str()
    }

    /// The request of this handshake.
    pub fn request(&self) -> (request: MineChatMessage)
        ensures
            request@ == self@.request(),
    {
        let link_code = match &self.link_code {
            Some(code) => code.clone(),
            None => String::new(),
        };
        MineChatMessage::Auth {
            payload: AuthPayload { client_uuid: self.identity.clone(), link_code },
        }
    }

    fn reject(&mut self, error: MineChatError) -> (step: Step)
        ensures
            final(self)@ == old(self)@.at(HandshakeState::Rejected),
            step@ == StepModel::Rejected(error@),
    {
        self.state = HandshakeState::Rejected;
        Step::Rejected(error)
    }

    /// Begins the handshake: hands out the frame of the request.
    pub fn begin(&mut self) -> (step: Step)
        ensures
            (final(self)@, step@) == old(self)@.begin(),
    {
        match self.state {
            HandshakeState::Start => match encode(&self.request()) {
                Ok(frame) => {
                    self.state = HandshakeState::AwaitingAck;
                    Step::Send(frame)
                },
                Err(_) => self.reject(MineChatError::Encoding),
            },
            _ => Step::Ignored,
        }
    }

    /// Takes the server's answer, given as a message.
    pub fn receive(&mut self, reply: MineChatMessage, config: &mut ServerConfig) -> (step: Step)
        ensures
            (final(self)@, step@, final(config)@) == old(self)@.receive(reply@, old(config)@),
    {
        match self.state {
            HandshakeState::AwaitingAck => match judge(reply) {
                Ok(message) => {
                    if self.link_code.is_some() {
                        config.upsert(self.address.as_str(), self.identity.as_str());
                    }
                    self.state = HandshakeState::Authenticated;
                    let session = Session::open(self.address.clone(), self.identity.clone());
                    Step::Authenticated { session, message }
                },
                Err(error) => self.reject(error),
            },
            _ => Step::Ignored,
        }
    }

    /// Takes the server's answer, given as the line that was read.
    pub fn receive_line(&mut self, line: &[u8], config: &mut ServerConfig) -> (step: Step)
        ensures
            (final(self)@, step@, final(config)@) == old(self)@.receive_line(line@, old(config)@),
    {
        match decode(line) {
            Ok(reply) => self.receive(reply, config),
            Err(_) => self.abort(MineChatError::Decoding),
        }
    }

    fn abort(&mut self, error: MineChatError) -> (step: Step)
        ensures
            (final(self)@, step@) == old(self)@.abort(error@),
    {
        match self.state {
            HandshakeState::AwaitingAck => self.reject(error),
            _ => Step::Ignored,
        }
    }

    /// Takes note that the server closed the connection without an answer.
    pub fn closed(&mut self) -> (step: Step)
        ensures
            (final(self)@, step@) == old(self)@.abort(Failure::ConnectionClosed),
    {
        self.abort(MineChatError::ConnectionClosed)
    }

    /// Takes note that connecting, writing or reading failed.
    pub fn fail(&mut self, detail: &str) -> (step: Step)
        ensures
            (final(self)@, step@) == old(self)@.fail(detail@),
    {
        match self.state {
            HandshakeState::Start => self.reject(MineChatError::Transport(detail.to_owned())),
            HandshakeState::AwaitingAck => self.reject(
                MineChatError::Transport(detail.to_owned()),
            ),
            _ => Step::Ignored,
        }
    }
}

} // verus!
