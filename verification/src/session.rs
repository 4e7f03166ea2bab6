//! The session: what the client does, once authenticated, with each thing
//! that happens.
//!
//! Three sources feed a session: lines from the server, lines the user
//! types, and an interrupt. Whoever runs the session waits on all three,
//! hands over one event at a time, and carries out the reaction before it
//! looks at the sources again. The session ends with the first reaction that
//! says so; from then on it passes over whatever it is handed.

use crate::codec::{decode, encode, frame_envelope, frame_of};
use crate::error::{Failure, MineChatError};
use crate::protocol::{ChatPayload, DisconnectPayload, Envelope, MineChatMessage};
use crate::text::{same_text, trim, trimmed};
use vstd::prelude::*;
use vstd::string::StringExecFns;

verus! {

/// An authenticated connection to one server.
#[derive(Debug, Clone, PartialEq, Eq)]
pub struct Session {
    address: String,
    identity: String,
    alive: bool,
}

/// The model of a [`Session`].
pub struct SessionModel {
    pub address: Seq<char>,
    pub identity: Seq<char>,
    pub alive: bool,
}

impl View for Session {
    type V = SessionModel;

    closed spec fn view(&self) -> SessionModel {
        SessionModel { address: self.address@, identity: self.identity@, alive: self.alive }
    }
}

/// One thing that happens to a session.
#[derive(Debug, Clone, PartialEq, Eq)]
pub enum Event {
    /// A line arrived from the server.
    Line(Vec<u8>),
    /// The server closed the connection.
    Closed,
    /// The user entered a line.
    Input(String),
    /// The user's input came to its end.
    EndOfInput,
    /// The user interrupted the client.
    Interrupt,
    /// Reading from or writing to the connection, or reading the input, failed.
    Fault(String),
}

/// The model of an [`Event`].
pub enum EventModel {
    Line(Seq<u8>),
    Closed,
    Input(Seq<char>),
    EndOfInput,
    Interrupt,
    Fault(Seq<char>),
}

impl View for Event {
    type V = EventModel;

    open spec fn view(&self) -> EventModel {
        match *self {
            Event::Line(line) => EventModel::Line(line@),
            Event::Closed => EventModel::Closed,
            Event::Input(line) => EventModel::Input(line@),
            Event::EndOfInput => EventModel::EndOfInput,
            Event::Interrupt => EventModel::Interrupt,
            Event::Fault(detail) => EventModel::Fault(detail@),
        }
    }
}

/// What is to be done about an event.
#[derive(Debug, Clone, PartialEq, Eq)]
pub enum Reaction {
    /// Show this line to the user.
    Display(String),
    /// Do nothing.
    Skip,
    /// Do nothing but take note: the server sent a message that has no
    /// meaning inside a session.
    Unhandled(MineChatMessage),
    /// Write this frame to the server. If that fails, the session has failed.
    Send(Vec<u8>),
    /// The client leaves. Try to write the farewell frame, if there is one,
    /// and pass over a failure to do so; then show the reason and close the
    /// connection.
    Leave { farewell: Option<Vec<u8>>, reason: String },
    /// The server is gone. Show the reason and close the connection, without
    /// writing anything.
    Closed { reason: String },
    /// The session has failed. Close the connection and report the error.
    Failed(MineChatError),
}

/// The model of a [`Reaction`].
pub enum ReactionModel {
    Display(Seq<char>),
    Skip,
    Unhandled(Envelope),
    Send(Seq<u8>),
    Leave { farewell: Option<Seq<u8>>, reason: Seq<char> },
    Closed { reason: Seq<char> },
    Failed(Failure),
}

/// The bytes of an optional frame.
pub open spec fn frame_view(frame: Option<Vec<u8>>) -> Option<Seq<u8>> {
    match frame {
        Some(bytes) => Some(bytes@),
        None => None,
    }
}

impl View for Reaction {
    type V = ReactionModel;

    open spec fn view(&self) -> ReactionModel {
        match *self {
            Reaction::Display(line) => ReactionModel::Display(line@),
            Reaction::Skip => ReactionModel::Skip,
            Reaction::Unhandled(message) => ReactionModel::Unhandled(message@),
            Reaction::Send(frame) => ReactionModel::Send(frame@),
            Reaction::Leave { farewell, reason } => ReactionModel::Leave {
                farewell: frame_view(farewell),
                reason: reason@,
            },
            Reaction::Closed { reason } => ReactionModel::Closed { reason: reason@ },
            Reaction::Failed(error) => ReactionModel::Failed(error@),
        }
    }
}

impl ReactionModel {
    /// Whether the session is over after this reaction.
    pub open spec fn ends(self) -> bool {
        self is Leave || self is Closed || self is Failed
    }

    /// The frame that this reaction asks to be written, if it asks for one.
    pub open spec fn outbound(self) -> Option<Seq<u8>> {
        match self {
            ReactionModel::Send(frame) => Some(frame),
            ReactionModel::Leave { farewell, .. } => farewell,
            _ => None,
        }
    }
}

/// The line that shows a broadcast to the user.
pub open spec fn broadcast_line(from: Seq<char>, message: Seq<char>) -> Seq<char> {
    "["@ + from + "] "@ + message
}

/// The reaction to a message from the server.
pub open spec fn react_to_message(message: Envelope) -> ReactionModel {
    match message {
        Envelope::Broadcast { from, message } => ReactionModel::Display(
            broadcast_line(from, message),
        ),
        Envelope::Disconnect { reason } => ReactionModel::Closed { reason },
        other => ReactionModel::Unhandled(other),
    }
}

/// The reaction to a line from the server. A line that carries no message is
/// passed over.
pub open spec fn react_to_line(line: Seq<u8>) -> ReactionModel {
    match frame_envelope(line) {
        Some(message) => react_to_message(message),
        None => ReactionModel::Skip,
    }
}

/// The message with which the client takes its leave.
pub open spec fn farewell() -> Envelope {
    Envelope::Disconnect { reason: "Client exit"@ }
}

/// The reaction by which the client leaves of its own accord.
pub open spec fn leave() -> ReactionModel {
    ReactionModel::Leave { farewell: frame_of(farewell()), reason: "Client exit"@ }
}

/// The reaction to what the user entered, taken without the white space
/// around it: `/exit` is the command to leave, anything else is sent as chat.
pub open spec fn react_to_text(text: Seq<char>) -> ReactionModel {
    if text == "/exit"@ {
        leave()
    } else {
        match frame_of(Envelope::Chat { message: text }) {
            Some(frame) => ReactionModel::Send(frame),
            None => ReactionModel::Failed(Failure::Encoding),
        }
    }
}

/// The reaction of a live session to an event.
pub open spec fn react(event: EventModel) -> ReactionModel {
    match event {
        EventModel::Line(line) => react_to_line(line),
        EventModel::Closed => ReactionModel::Closed { reason: "connection closed"@ },
        EventModel::Input(line) => react_to_text(trimmed(line)),
        EventModel::EndOfInput => leave(),
        EventModel::Interrupt => leave(),
        EventModel::Fault(detail) => ReactionModel::Failed(Failure::Transport(detail)),
    }
}

/// The reaction of a session, live or not, to an event: a session that is
/// over passes over everything.
pub open spec fn reaction(alive: bool, event: EventModel) -> ReactionModel {
    if alive {
        react(event)
    } else {
        ReactionModel::Skip
    }
}

/// The reactions of a session to a run of events, in their order. Events
/// after the one that ends the session draw no reaction.
pub open spec fn reactions(alive: bool, events: Seq<EventModel>) -> Seq<ReactionModel>
    decreases events.len(),
{
    if events.len() == 0 || !alive {
        Seq::empty()
    } else {
        let first = react(events[0]);
        seq![first] + reactions(!first.ends(), events.drop_first())
    }
}

/// The models of a run of events.
pub open spec fn event_models(events: Seq<Event>) -> Seq<EventModel> {
    Seq::new(events.len(), |i: int| events[i]@)
}

/// The models of a list of reactions.
pub open spec fn reaction_models(log: Seq<Reaction>) -> Seq<ReactionModel> {
    Seq::new(log.len(), |i: int| log[i]@)
}

/// Whether a run of events leaves a session alive.
pub open spec fn survives(alive: bool, events: Seq<EventModel>) -> bool
    decreases events.len(),
{
    if events.len() == 0 || !alive {
        alive
    } else {
        survives(!react(events[0]).ends(), events.drop_first())
    }
}

/// Whether an event makes the client leave of its own accord: the input is
/// at its end, the user interrupts, or the user enters `/exit`.
pub open spec fn client_exit(event: EventModel) -> bool {
    ||| event is EndOfInput
    ||| event is Interrupt
    ||| event matches EventModel::Input(line) && trimmed(line) == "/exit"@
}

/// Whether an event tells that the server is gone: it closed the connection,
/// or sent a disconnect message.
pub open spec fn server_exit(event: EventModel) -> bool {
    ||| event is Closed
    ||| event matches EventModel::Line(line) && frame_envelope(line) matches Some(
        Envelope::Disconnect { .. },
    )
}

/// Whether an event makes the session fail: the connection or the input
/// failed, or the user entered chat that has no frame.
pub open spec fn fatal(event: EventModel) -> bool {
    ||| event is Fault
    ||| event matches EventModel::Input(line) && trimmed(line) != "/exit"@ && frame_of(
        Envelope::Chat { message: trimmed(line) },
    ) is None
}

/// A session ends exactly when the client leaves, the server is gone, or the
/// session fails; every other event leaves it going.
pub proof fn lemma_session_ends_when(event: EventModel)
    ensures
        react(event).ends() <==> client_exit(event) || server_exit(event) || fatal(event),
{
}

/// However the client leaves of its own accord, the farewell is the frame of
/// a disconnect message with the reason `Client exit`, and that is the reason
/// given to the user.
pub proof fn lemma_client_exit_takes_leave(event: EventModel)
    requires
        client_exit(event),
    ensures
        react(event) == (ReactionModel::Leave {
            farewell: frame_of(Envelope::Disconnect { reason: "Client exit"@ }),
            reason: "Client exit"@,
        }),
{
}

/// When the server is gone the session ends without a farewell. The reason
/// given is the server's own, or `connection closed` where it gave none.
pub proof fn lemma_server_exit_is_silent(event: EventModel)
    requires
        server_exit(event),
    ensures
        react(event) is Closed,
        react(event).outbound() is None,
        event matches EventModel::Line(line) ==> frame_envelope(line) matches Some(
            Envelope::Disconnect { reason },
        ) && react(event) == (ReactionModel::Closed { reason }),
        event is Closed ==> react(event) == (ReactionModel::Closed {
            reason: "connection closed"@,
        }),
{
}

/// Nothing that comes from the server makes the client write to it.
pub proof fn lemma_inbound_sends_nothing(event: EventModel)
    requires
        event is Line || event is Closed,
    ensures
        react(event).outbound() is None,
{
}

/// A line from the server that carries no message is passed over and does
/// not end the session.
pub proof fn lemma_malformed_line_is_dropped(line: Seq<u8>)
    requires
        frame_envelope(line) is None,
    ensures
        react(EventModel::Line(line)) == ReactionModel::Skip,
        !react(EventModel::Line(line)).ends(),
{
}

/// A session that is over draws no reaction from any run of events.
pub proof fn lemma_ended_session_is_silent(event: EventModel, events: Seq<EventModel>)
    ensures
        reaction(false, event) == ReactionModel::Skip,
        reactions(false, events) == Seq::<ReactionModel>::empty(),
        !survives(false, events),
{
}

/// Over any run of events a session reacts to each event in turn until one
/// reaction ends it: only the last reaction can be one that ends the
/// session, so the client takes its leave at most once and writes nothing
/// after that, and the session is alive afterwards exactly if no reaction
/// ended it.
pub proof fn lemma_session_ends_once(events: Seq<EventModel>)
    ensures
        reactions(true, events).len() <= events.len(),
        forall|i: int|
            0 <= i < reactions(true, events).len() ==> (#[trigger] reactions(true, events)[i])
                == react(events[i]),
        forall|i: int|
            0 <= i < reactions(true, events).len() - 1 ==> !(#[trigger] reactions(
                true,
                events,
            )[i]).ends(),
        survives(true, events) <==> (forall|i: int|
            0 <= i < reactions(true, events).len() ==> !(#[trigger] reactions(
                true,
                events,
            )[i]).ends()),
        survives(true, events) ==> reactions(true, events).len() == events.len(),
        !survives(true, events) ==> reactions(true, events).len() > 0 && reactions(
            true,
            events,
        ).last().ends(),
    decreases events.len(),
{
    let log = reactions(true, events);
    if events.len() > 0 {
        let first = react(events[0]);
        let rest = events.drop_first();
        let tail = reactions(!first.ends(), rest);
        assert(log =~= seq![first] + tail);
        assert(survives(true, events) == survives(!first.ends(), rest));
        if first.ends() {
            assert(tail =~= Seq::<ReactionModel>::empty());
            assert(!survives(false, rest));
            assert(log[0].ends());
        } else {
            lemma_session_ends_once(rest);
            assert forall|i: int| 0 <= i < log.len() implies #[trigger] log[i] == react(
                events[i],
            ) by {
                if i > 0 {
                    assert(log[i] == tail[i - 1]);
                    assert(rest[i - 1] == events[i]);
                }
            }
            assert forall|i: int| 0 <= i < log.len() - 1 implies !(#[trigger] log[i]).ends() by {
                if i > 0 {
                    assert(log[i] == tail[i - 1]);
                }
            }
            if survives(true, rest) {
                assert forall|i: int| 0 <= i < log.len() implies !(#[trigger] log[i]).ends() by {
                    if i > 0 {
                        assert(log[i] == tail[i - 1]);
                    }
                }
            } else {
                assert(log[log.len() - 1] == tail[tail.len() - 1]);
                assert(log[log.len() - 1].ends());
            }
        }
    }
}

/// A broadcast and then a disconnect from the server: the broadcast is shown,
/// the session ends with the server's reason, and nothing is written.
pub proof fn lemma_broadcast_then_disconnect(
    first: Seq<u8>,
    second: Seq<u8>,
    from: Seq<char>,
    message: Seq<char>,
    reason: Seq<char>,
)
    requires
        frame_envelope(first) == Some(Envelope::Broadcast { from, message }),
        frame_envelope(second) == Some(Envelope::Disconnect { reason }),
    ensures
        reactions(true, seq![EventModel::Line(first), EventModel::Line(second)]) == seq![
            ReactionModel::Display(broadcast_line(from, message)),
            ReactionModel::Closed { reason },
        ],
        !survives(true, seq![EventModel::Line(first), EventModel::Line(second)]),
        ReactionModel::Display(broadcast_line(from, message)).outbound() is None,
        (ReactionModel::Closed { reason }).outbound() is None,
{
    let events = seq![EventModel::Line(first), EventModel::Line(second)];
    reveal_with_fuel(reactions, 3);
    reveal_with_fuel(survives, 3);
    assert(events.drop_first() =~= seq![EventModel::Line(second)]);
    assert(events.drop_first().drop_first() =~= Seq::<EventModel>::empty());
    assert(reactions(true, events) =~= seq![
        ReactionModel::Display(broadcast_line(from, message)),
        ReactionModel::Closed { reason },
    ]);
}

/// Chat and then the command to leave: the chat is sent, then the farewell,
/// and the session is over.
pub proof fn lemma_chat_then_exit(first: Seq<char>, second: Seq<char>, frame: Seq<u8>)
    requires
        trimmed(first) != "/exit"@,
        frame_of(Envelope::Chat { message: trimmed(first) }) == Some(frame),
        trimmed(second) == "/exit"@,
    ensures
        reactions(true, seq![EventModel::Input(first), EventModel::Input(second)]) == seq![
            ReactionModel::Send(frame),
            leave(),
        ],
        !survives(true, seq![EventModel::Input(first), EventModel::Input(second)]),
{
    let events = seq![EventModel::Input(first), EventModel::Input(second)];
    reveal_with_fuel(reactions, 3);
    reveal_with_fuel(survives, 3);
    assert(events.drop_first() =~= seq![EventModel::Input(second)]);
    assert(events.drop_first().drop_first() =~= Seq::<EventModel>::empty());
    assert(reactions(true, events) =~= seq![ReactionModel::Send(frame), leave()]);
}

/// A line that carries no message between two broadcasts: both broadcasts
/// are shown, in their order, and the session goes on.
pub proof fn lemma_malformed_line_between_broadcasts(
    first: Seq<u8>,
    garbled: Seq<u8>,
    second: Seq<u8>,
    from: Seq<char>,
    message: Seq<char>,
    other_from: Seq<char>,
    other_message: Seq<char>,
)
    requires
        frame_envelope(first) == Some(Envelope::Broadcast { from, message }),
        frame_envelope(garbled) is None,
        frame_envelope(second) == Some(
            Envelope::Broadcast { from: other_from, message: other_message },
        ),
    ensures
        reactions(
            true,
            seq![EventModel::Line(first), EventModel::Line(garbled), EventModel::Line(second)],
        ) == seq![
            ReactionModel::Display(broadcast_line(from, message)),
            ReactionModel::Skip,
            ReactionModel::Display(broadcast_line(other_from, other_message)),
        ],
        survives(
            true,
            seq![EventModel::Line(first), EventModel::Line(garbled), EventModel::Line(second)],
        ),
{
    let events = seq![
        EventModel::Line(first),
        EventModel::Line(garbled),
        EventModel::Line(second),
    ];
    let rest = seq![EventModel::Line(garbled), EventModel::Line(second)];
    reveal_with_fuel(reactions, 4);
    reveal_with_fuel(survives, 4);
    assert(events.drop_first() =~= rest);
    assert(rest.drop_first() =~= seq![EventModel::Line(second)]);
    assert(rest.drop_first().drop_first() =~= Seq::<EventModel>::empty());
    assert(reactions(true, events) =~= seq![
        ReactionModel::Display(broadcast_line(from, message)),
        ReactionModel::Skip,
        ReactionModel::Display(broadcast_line(other_from, other_message)),
    ]);
}

impl Session {
    /// The session that begins when a server has accepted the client.
    pub fn open(address: String, identity: String) -> (session: Session)
        ensures
            session@ == (SessionModel { address: address@, identity: identity@, alive: true }),
    {
        Session { address, identity, alive: true }
    }

    /// The address of the server.
    pub fn address(&self) -> (address: &str)
        ensures
            address@ == self@.address,
    {
        self.address.as_str()
    }

    /// The identity under which the server knows the client.
    pub fn identity(&self) -> (identity: &str)
        ensures
            identity@ == self@.identity,
    {
        self.identity.as_str()
    }

    /// Whether the session is still going on.
    pub fn is_alive(&self) -> (alive: bool)
        ensures
            alive == self@.alive,
    {
        self.alive
    }

    fn settle(&mut self, outcome: Reaction) -> (r: Reaction)
        requires
            old(self)@.alive,
        ensures
            r == outcome,
            final(self)@ == (SessionModel { alive: !outcome@.ends(), ..old(self)@ }),
    {
        match &outcome {
            Reaction::Leave { .. } => {
                self.alive = false;
            },
            Reaction::Closed { .. } => {
                self.alive = false;
            },
            Reaction::Failed(_) => {
                self.alive = false;
            },
            _ => {},
        }
        outcome
    }

    fn take_leave(&mut self) -> (r: Reaction)
        requires
            old(self)@.alive,
        ensures
            r@ == leave(),
            final(self)@ == (SessionModel { alive: false, ..old(self)@ }),
    {
        let notice = MineChatMessage::Disconnect {
            payload: DisconnectPayload { reason: String::from_str("Client exit") },
        };
        let farewell = match encode(&notice) {
            Ok(frame) => Some(frame),
            Err(_) => None,
        };
        self.settle(Reaction::Leave { farewell, reason: String::from_str("Client exit") })
    }

    /// Reacts to a message from the server: a broadcast is shown, a
    /// disconnect ends the session with the server's reason, and any other
    /// message is handed back as unhandled.
    pub fn on_message(&mut self, message: MineChatMessage) -> (r: Reaction)
        ensures
            r@ == if old(self)@.alive {
                react_to_message(message@)
            } else {
                ReactionModel::Skip
            },
            final(self)@ == (SessionModel { alive: old(self)@.alive && !r@.ends(), ..old(self)@ }),
    {
        if !self.alive {
            return Reaction::Skip;
        }
        match message {
            MineChatMessage::Broadcast { payload } => {
                let line = String::from_str("[").concat(payload.from.as_str()).concat("] ").concat(
                    payload.message.as_str(),
                );
                self.settle(Reaction::Display(line))
            },
            MineChatMessage::Disconnect { payload } => self.settle(
                Reaction::Closed { reason: payload.reason },
            ),
            other => self.settle(Reaction::Unhandled(other)),
        }
    }

    /// Reacts to a line from the server. A line that carries no message is
    /// passed over, and the session goes on.
    pub fn on_line(&mut self, line: &[u8]) -> (r: Reaction)
        ensures
            r@ == reaction(old(self)@.alive, EventModel::Line(line@)),
            final(self)@ == (SessionModel { alive: old(self)@.alive && !r@.ends(), ..old(self)@ }),
    {
        if !self.alive {
            return Reaction::Skip;
        }
        match decode(line) {
            Ok(message) => self.on_message(message),
            Err(_) => Reaction::Skip,
        }
    }

    /// Reacts to what the user entered, given without the white space around
    /// it: `/exit` takes leave of the server, anything else is sent as chat.
    pub fn on_text(&mut self, text: String) -> (r: Reaction)
        ensures
            r@ == if old(self)@.alive {
                react_to_text(text@)
            } else {
                ReactionModel::Skip
            },
            final(self)@ == (SessionModel { alive: old(self)@.alive && !r@.ends(), ..old(self)@ }),
    {
        if !self.alive {
            return Reaction::Skip;
        }
        if same_text(text.as_str(), "/exit") {
            self.take_leave()
        } else {
            let chat = MineChatMessage::Chat { payload: ChatPayload { message: text } };
            match encode(&chat) {
                Ok(frame) => self.settle(Reaction::Send(frame)),
                Err(_) => self.settle(Reaction::Failed(MineChatError::Encoding)),
            }
        }
    }

    /// Reacts to an event.
    pub fn handle(&mut self, event: &Event) -> (r: Reaction)
        ensures
            r@ == reaction(old(self)@.alive, event@),
            final(self)@ == (SessionModel { alive: old(self)@.alive && !r@.ends(), ..old(self)@ }),
    {
        if !self.alive {
            return Reaction::Skip;
        }
        match event {
            Event::Line(line) => self.on_line(line.as_slice()),
            Event::Closed => self.settle(
                Reaction::Closed { reason: String::from_str("connection closed") },
            ),
            Event::Input(line) => {
                let text = trim(line.as_str());
                self.on_text(text)
            },
            Event::EndOfInput => self.take_leave(),
            Event::Interrupt => self.take_leave(),
            Event::Fault(detail) => self.settle(
                Reaction::Failed(MineChatError::Transport(detail.clone())),
            ),
        }
    }

    /// Reacts to a run of events, one after the other, up to the one that
    /// ends the session, and returns the reactions in their order.
    pub fn replay(&mut self, events: &[Event]) -> (log: Vec<Reaction>)
        ensures
            reaction_models(log@) == reactions(old(self)@.alive, event_models(events@)),
            final(self)@ == (SessionModel {
                alive: survives(old(self)@.alive, event_models(events@)),
                ..old(self)@
            }),
    {
        let ghost all = event_models(events@);
        let mut log: Vec<Reaction> = Vec::new();
        let mut i: usize = 0;
        assert(all.skip(0) =~= all);
        assert(reaction_models(log@) + reactions(self@.alive, all) =~= reactions(
            self@.alive,
            all,
        ));
        while i < events.len() && self.alive
            invariant
                i <= events.len(),
                all == event_models(events@),
                self@ == (SessionModel { alive: self@.alive, ..old(self)@ }),
                reaction_models(log@) + reactions(self@.alive, all.skip(i as int)) == reactions(
                    old(self)@.alive,
                    all,
                ),
                survives(self@.alive, all.skip(i as int)) == survives(old(self)@.alive, all),
            decreases events.len() - i,
        {
            let ghost before = reaction_models(log@);
            let ghost rest = all.skip(i as int);
            let r = self.handle(&events[i]);
            proof {
                assert(rest[0] == events@[i as int]@);
                assert(rest.drop_first() =~= all.skip(i + 1));
                assert(reaction_models(log@.push(r)) =~= before.push(r@));
                assert(before.push(r@) + reactions(self@.alive, all.skip(i + 1)) =~= before + (
                seq![r@] + reactions(self@.alive, all.skip(i + 1))));
            }
            log.push(r);
            i = i + 1;
        }
        proof {
            assert(reactions(self@.alive, all.skip(i as int)) =~= Seq::<ReactionModel>::empty());
            assert(reaction_models(log@) + Seq::<ReactionModel>::empty() =~= reaction_models(
                log@,
            ));
        }
        log
    }
}

} // verus!
