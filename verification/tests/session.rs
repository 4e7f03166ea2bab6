use minechat::codec::{decode, encode};
use minechat::error::MineChatError;
use minechat::protocol::{
    AuthAckPayload, BroadcastPayload, ChatPayload, DisconnectPayload, MineChatMessage,
};
use minechat::session::{Event, Reaction, Session};

fn session() -> Session {
    Session::open("play.example.org:25575".to_string(), "id-1".to_string())
}

fn chat(message: &str) -> MineChatMessage {
    MineChatMessage::Chat { payload: ChatPayload { message: message.to_string() } }
}

fn broadcast(from: &str, message: &str) -> MineChatMessage {
    MineChatMessage::Broadcast {
        payload: BroadcastPayload { from: from.to_string(), message: message.to_string() },
    }
}

fn disconnect(reason: &str) -> MineChatMessage {
    MineChatMessage::Disconnect { payload: DisconnectPayload { reason: reason.to_string() } }
}

fn line(message: &MineChatMessage) -> Event {
    Event::Line(encode(message).unwrap())
}

fn input(text: &str) -> Event {
    Event::Input(text.to_string())
}

fn leave() -> Reaction {
    Reaction::Leave {
        farewell: Some(encode(&disconnect("Client exit")).unwrap()),
        reason: "Client exit".to_string(),
    }
}

/// The frames that a list of reactions asks to be written, in their order.
fn sent(log: &[Reaction]) -> Vec<MineChatMessage> {
    let mut frames = Vec::new();
    for reaction in log {
        match reaction {
            Reaction::Send(frame) => frames.push(decode(frame).unwrap()),
            Reaction::Leave { farewell: Some(frame), .. } => frames.push(decode(frame).unwrap()),
            _ => {}
        }
    }
    frames
}

/// The lines that a list of reactions asks to be shown, in their order.
fn shown(log: &[Reaction]) -> Vec<String> {
    let mut lines = Vec::new();
    for reaction in log {
        if let Reaction::Display(text) = reaction {
            lines.push(text.clone());
        }
    }
    lines
}

#[test]
fn a_new_session_is_alive() {
    let session = session();
    assert!(session.is_alive());
    assert_eq!(session.address(), "play.example.org:25575");
    assert_eq!(session.identity(), "id-1");
}

#[test]
fn broadcast_then_server_disconnect() {
    let mut session = session();
    let events = vec![line(&broadcast("Bob", "hi")), line(&disconnect("server shutdown"))];
    let log = session.replay(&events);
    assert_eq!(
        log,
        vec![
            Reaction::Display("[Bob] hi".to_string()),
            Reaction::Closed { reason: "server shutdown".to_string() },
        ]
    );
    assert_eq!(shown(&log), vec!["[Bob] hi".to_string()]);
    assert_eq!(sent(&log), vec![]);
    assert!(!session.is_alive());
}

#[test]
fn chat_then_exit_command() {
    let mut session = session();
    let events = vec![input("hello\n"), input("/exit\n")];
    let log = session.replay(&events);
    assert_eq!(log, vec![Reaction::Send(encode(&chat("hello")).unwrap()), leave()]);
    assert_eq!(sent(&log), vec![chat("hello"), disconnect("Client exit")]);
    assert!(!session.is_alive());
}

#[test]
fn a_malformed_line_between_two_broadcasts_is_dropped() {
    let mut session = session();
    let events = vec![
        line(&broadcast("Bob", "one")),
        Event::Line(b"{\"type\":\"BROADCAST\",\"payload\":\n".to_vec()),
        line(&broadcast("Eve", "two")),
    ];
    let log = session.replay(&events);
    assert_eq!(
        log,
        vec![
            Reaction::Display("[Bob] one".to_string()),
            Reaction::Skip,
            Reaction::Display("[Eve] two".to_string()),
        ]
    );
    assert_eq!(shown(&log), vec!["[Bob] one".to_string(), "[Eve] two".to_string()]);
    assert!(session.is_alive());
}

#[test]
fn every_kind_of_malformed_line_is_dropped() {
    let mut session = session();
    for bytes in [
        &b""[..],
        &b"\n"[..],
        &b"garbage\n"[..],
        &b"{\"type\":\"PING\",\"payload\":{}}\n"[..],
        &b"{\"type\":\"BROADCAST\",\"payload\":{\"from\":\"Bob\"}}\n"[..],
        &b"{\"type\":\"DISCONNECT\",\"payload\":{\"reason\":5}}\n"[..],
        &[0xc3, 0x28, 0x0a][..],
    ] {
        assert_eq!(session.on_line(bytes), Reaction::Skip);
        assert!(session.is_alive());
    }
}

#[test]
fn end_of_input_takes_leave() {
    let mut session = session();
    assert_eq!(session.handle(&Event::EndOfInput), leave());
    assert!(!session.is_alive());
}

#[test]
fn interrupt_takes_leave() {
    let mut session = session();
    assert_eq!(session.handle(&Event::Interrupt), leave());
    assert!(!session.is_alive());
}

#[test]
fn exit_command_takes_leave_with_or_without_white_space() {
    for text in ["/exit", "/exit\n", "  /exit \r\n", "\t/exit"] {
        let mut session = session();
        assert_eq!(session.handle(&input(text)), leave());
        assert!(!session.is_alive());
    }
}

#[test]
fn what_only_looks_like_the_exit_command_is_chat() {
    for (text, message) in [("/exit now\n", "/exit now"), ("/EXIT\n", "/EXIT"), ("exit\n", "exit")]
    {
        let mut session = session();
        assert_eq!(session.handle(&input(text)), Reaction::Send(encode(&chat(message)).unwrap()));
        assert!(session.is_alive());
    }
}

#[test]
fn input_is_sent_without_the_white_space_around_it() {
    let mut session = session();
    assert_eq!(
        session.handle(&input("  hello  world \r\n")),
        Reaction::Send(encode(&chat("hello  world")).unwrap())
    );
    assert_eq!(session.handle(&input("\n")), Reaction::Send(encode(&chat("")).unwrap()));
    assert!(session.is_alive());
}

#[test]
fn on_text_takes_the_text_as_it_is() {
    let mut session = session();
    assert_eq!(
        session.on_text(" /exit".to_string()),
        Reaction::Send(encode(&chat(" /exit")).unwrap())
    );
    assert_eq!(
        session.on_text("hello".to_string()),
        Reaction::Send(encode(&chat("hello")).unwrap())
    );
    assert!(session.is_alive());
    assert_eq!(session.on_text("/exit".to_string()), leave());
    assert!(!session.is_alive());
}

#[test]
fn a_closed_connection_ends_the_session_without_a_farewell() {
    let mut session = session();
    let log = session.replay(&[Event::Closed]);
    assert_eq!(log, vec![Reaction::Closed { reason: "connection closed".to_string() }]);
    assert_eq!(sent(&log), vec![]);
    assert!(!session.is_alive());
}

#[test]
fn a_failure_ends_the_session_with_the_error() {
    let mut session = session();
    assert_eq!(
        session.handle(&Event::Fault("connection reset".to_string())),
        Reaction::Failed(MineChatError::Transport("connection reset".to_string()))
    );
    assert!(!session.is_alive());
}

#[test]
fn messages_without_meaning_in_a_session_are_handed_back() {
    let mut session = session();
    let ack = MineChatMessage::AuthAck {
        payload: AuthAckPayload {
            status: "success".to_string(),
            message: "again".to_string(),
            minecraft_uuid: None,
            username: None,
        },
    };
    assert_eq!(session.handle(&line(&ack)), Reaction::Unhandled(ack.clone()));
    assert_eq!(session.handle(&line(&chat("echo"))), Reaction::Unhandled(chat("echo")));
    assert_eq!(session.on_message(ack.clone()), Reaction::Unhandled(ack));
    assert!(session.is_alive());
}

#[test]
fn on_message_shows_a_broadcast_and_ends_on_a_disconnect() {
    let mut session = session();
    assert_eq!(
        session.on_message(broadcast("", "")),
        Reaction::Display("[] ".to_string())
    );
    assert_eq!(
        session.on_message(broadcast("Al[i]ce", "] hi [")),
        Reaction::Display("[Al[i]ce] ] hi [".to_string())
    );
    assert!(session.is_alive());
    assert_eq!(
        session.on_message(disconnect("kicked")),
        Reaction::Closed { reason: "kicked".to_string() }
    );
    assert!(!session.is_alive());
}

#[test]
fn a_session_that_is_over_passes_over_everything() {
    let mut session = session();
    session.handle(&Event::Interrupt);
    assert!(!session.is_alive());
    for event in [
        line(&broadcast("Bob", "hi")),
        line(&disconnect("late")),
        Event::Closed,
        input("hello\n"),
        input("/exit\n"),
        Event::EndOfInput,
        Event::Interrupt,
        Event::Fault("late".to_string()),
    ] {
        assert_eq!(session.handle(&event), Reaction::Skip);
        assert!(!session.is_alive());
    }
    assert_eq!(session.on_message(broadcast("Bob", "hi")), Reaction::Skip);
    assert_eq!(session.on_text("hello".to_string()), Reaction::Skip);
    assert_eq!(session.on_line(b"x"), Reaction::Skip);
    assert_eq!(session.replay(&[Event::Closed, Event::Interrupt]), vec![]);
}

#[test]
fn replay_stops_at_the_reaction_that_ends_the_session() {
    let mut session = session();
    let events = vec![
        input("one\n"),
        line(&broadcast("Bob", "two")),
        Event::Interrupt,
        input("three\n"),
        Event::EndOfInput,
    ];
    let log = session.replay(&events);
    assert_eq!(
        log,
        vec![
            Reaction::Send(encode(&chat("one")).unwrap()),
            Reaction::Display("[Bob] two".to_string()),
            leave(),
        ]
    );
    assert_eq!(sent(&log), vec![chat("one"), disconnect("Client exit")]);
}

#[test]
fn replay_of_nothing_changes_nothing() {
    let mut session = session();
    assert_eq!(session.replay(&[]), vec![]);
    assert!(session.is_alive());
}

#[test]
fn replay_gives_what_handling_one_by_one_gives() {
    let events = vec![
        line(&broadcast("Bob", "hi")),
        Event::Line(b"noise\n".to_vec()),
        input("hello\n"),
        line(&chat("echo")),
        Event::EndOfInput,
    ];
    let mut stepped = session();
    let mut expected = Vec::new();
    for event in &events {
        expected.push(stepped.handle(event));
    }
    let mut replayed = session();
    assert_eq!(replayed.replay(&events), expected);
    assert_eq!(replayed.is_alive(), stepped.is_alive());
}
