use minechat::codec::{decode, encode};
use minechat::error::MineChatError;
use minechat::handshake::{judge, Flow, Handshake, HandshakeState, Step};
use minechat::protocol::{
    AuthAckPayload, AuthPayload, BroadcastPayload, ChatPayload, MineChatMessage,
};
use minechat::session::Session;
use minechat::store::{ServerConfig, ServerEntry};

const SERVER: &str = "play.example.org:25575";

fn entry(address: &str, uuid: &str) -> ServerEntry {
    ServerEntry { address: address.to_string(), uuid: uuid.to_string() }
}

fn ack(status: &str, message: &str, remote: Option<&str>) -> MineChatMessage {
    MineChatMessage::AuthAck {
        payload: AuthAckPayload {
            status: status.to_string(),
            message: message.to_string(),
            minecraft_uuid: remote.map(|s| s.to_string()),
            username: None,
        },
    }
}

fn auth(client_uuid: &str, link_code: &str) -> MineChatMessage {
    MineChatMessage::Auth {
        payload: AuthPayload {
            client_uuid: client_uuid.to_string(),
            link_code: link_code.to_string(),
        },
    }
}

/// A connection that records what is written to it and plays back what was
/// prepared for it. Creating one stands for connecting.
struct FakeTransport {
    inbound: Vec<Option<Vec<u8>>>,
    written: Vec<Vec<u8>>,
}

impl FakeTransport {
    fn connect(inbound: Vec<Option<Vec<u8>>>) -> FakeTransport {
        let mut inbound = inbound;
        inbound.reverse();
        FakeTransport { inbound, written: Vec::new() }
    }

    fn write(&mut self, frame: &[u8]) {
        self.written.push(frame.to_vec());
    }

    fn read(&mut self) -> Option<Vec<u8>> {
        self.inbound.pop().unwrap_or(None)
    }
}

/// Runs a handshake to its end over a fake connection, the way a client does.
fn run(
    handshake: &mut Handshake,
    config: &mut ServerConfig,
    transport: &mut FakeTransport,
) -> Step {
    match handshake.begin() {
        Step::Send(frame) => transport.write(&frame),
        other => return other,
    }
    match transport.read() {
        Some(line) => handshake.receive_line(&line, config),
        None => handshake.closed(),
    }
}

#[test]
fn reconnect_without_an_identity_fails_before_any_network_use() {
    let config = ServerConfig { servers: vec![entry("other.example.org:25575", "id-other")] };
    let mut connections = 0;
    let result = Handshake::reconnect(&config, SERVER).map(|mut handshake| {
        connections += 1;
        let mut transport = FakeTransport::connect(vec![]);
        let mut scratch = config.clone();
        run(&mut handshake, &mut scratch, &mut transport)
    });
    assert_eq!(result, Err(MineChatError::ServerNotLinked));
    assert_eq!(connections, 0);
}

#[test]
fn reconnect_presents_the_identity_on_record_and_no_code() {
    let config = ServerConfig { servers: vec![entry(SERVER, "id-1")] };
    let mut handshake = Handshake::reconnect(&config, SERVER).unwrap();
    assert_eq!(handshake.state(), HandshakeState::Start);
    assert_eq!(handshake.flow(), Flow::Reconnect);
    assert_eq!(handshake.address(), SERVER);
    assert_eq!(handshake.identity(), "id-1");
    assert_eq!(handshake.request(), auth("id-1", ""));
    match handshake.begin() {
        Step::Send(frame) => assert_eq!(decode(&frame), Ok(auth("id-1", ""))),
        other => panic!("expected a frame to send, got {:?}", other),
    }
    assert_eq!(handshake.state(), HandshakeState::AwaitingAck);
}

#[test]
fn reconnect_takes_the_identity_written_last() {
    let config = ServerConfig { servers: vec![entry(SERVER, "old"), entry(SERVER, "new")] };
    let handshake = Handshake::reconnect(&config, SERVER).unwrap();
    assert_eq!(handshake.identity(), "new");
}

#[test]
fn link_presents_the_code_and_the_fresh_identity() {
    let mut handshake = Handshake::link(SERVER, "fresh-id", "ABC123");
    assert_eq!(handshake.state(), HandshakeState::Start);
    assert_eq!(handshake.flow(), Flow::Link);
    assert_eq!(handshake.request(), auth("fresh-id", "ABC123"));
    assert_eq!(handshake.begin(), Step::Send(encode(&auth("fresh-id", "ABC123")).unwrap()));
    assert_eq!(handshake.state(), HandshakeState::AwaitingAck);
}

#[test]
fn link_success_records_the_identity_in_place_of_the_old_one() {
    let mut config = ServerConfig {
        servers: vec![entry(SERVER, "stale-id"), entry("other.example.org:25575", "id-other")],
    };
    let mut handshake = Handshake::link(SERVER, "fresh-id", "ABC123");
    let answer = encode(&ack("success", "Linked", Some("X"))).unwrap();
    let mut transport = FakeTransport::connect(vec![Some(answer)]);
    let step = run(&mut handshake, &mut config, &mut transport);
    assert_eq!(
        step,
        Step::Authenticated {
            session: Session::open(SERVER.to_string(), "fresh-id".to_string()),
            message: "Linked".to_string(),
        }
    );
    assert_eq!(handshake.state(), HandshakeState::Authenticated);
    assert_eq!(transport.written, vec![encode(&auth("fresh-id", "ABC123")).unwrap()]);
    assert_eq!(
        config.servers,
        vec![entry("other.example.org:25575", "id-other"), entry(SERVER, "fresh-id")]
    );
    assert_eq!(config.servers.iter().filter(|e| e.address == SERVER).count(), 1);
    assert_eq!(config.lookup(SERVER), Some("fresh-id".to_string()));
}

#[test]
fn link_success_on_an_empty_record_adds_one_entry() {
    let mut config = ServerConfig::new();
    let mut handshake = Handshake::link(SERVER, "fresh-id", "ABC123");
    handshake.begin();
    handshake.receive(ack("success", "Linked", Some("X")), &mut config);
    assert_eq!(config.servers, vec![entry(SERVER, "fresh-id")]);
}

#[test]
fn rejection_passes_the_message_on_and_leaves_the_record_alone() {
    let before = ServerConfig { servers: vec![entry(SERVER, "stale-id")] };
    let mut config = before.clone();
    let mut handshake = Handshake::link(SERVER, "fresh-id", "WRONG");
    let answer = encode(&ack("failure", "bad code", None)).unwrap();
    let mut transport = FakeTransport::connect(vec![Some(answer)]);
    let step = run(&mut handshake, &mut config, &mut transport);
    assert_eq!(step, Step::Rejected(MineChatError::AuthFailed("bad code".to_string())));
    assert_eq!(handshake.state(), HandshakeState::Rejected);
    assert_eq!(config, before);
}

#[test]
fn reconnect_success_leaves_the_record_alone() {
    let before = ServerConfig { servers: vec![entry(SERVER, "id-1"), entry("b:1", "id-b")] };
    let mut config = before.clone();
    let mut handshake = Handshake::reconnect(&config, SERVER).unwrap();
    let answer = encode(&ack("success", "Welcome back", Some("X"))).unwrap();
    let mut transport = FakeTransport::connect(vec![Some(answer)]);
    let step = run(&mut handshake, &mut config, &mut transport);
    assert_eq!(
        step,
        Step::Authenticated {
            session: Session::open(SERVER.to_string(), "id-1".to_string()),
            message: "Welcome back".to_string(),
        }
    );
    assert_eq!(config, before);
}

#[test]
fn any_other_message_is_an_unexpected_response() {
    let mut config = ServerConfig::new();
    let mut handshake = Handshake::link(SERVER, "fresh-id", "ABC123");
    handshake.begin();
    let reply = MineChatMessage::Broadcast {
        payload: BroadcastPayload { from: "Bob".to_string(), message: "hi".to_string() },
    };
    assert_eq!(
        handshake.receive(reply, &mut config),
        Step::Rejected(MineChatError::AuthFailed("Unexpected response".to_string()))
    );
    assert_eq!(handshake.state(), HandshakeState::Rejected);
    assert!(config.servers.is_empty());
}

#[test]
fn a_line_that_is_no_message_ends_the_handshake() {
    let mut config = ServerConfig::new();
    let mut handshake = Handshake::link(SERVER, "fresh-id", "ABC123");
    let mut transport = FakeTransport::connect(vec![Some(b"not json\n".to_vec())]);
    let step = run(&mut handshake, &mut config, &mut transport);
    assert_eq!(step, Step::Rejected(MineChatError::Decoding));
    assert_eq!(handshake.state(), HandshakeState::Rejected);
    assert!(config.servers.is_empty());
}

#[test]
fn a_connection_closed_before_the_answer_ends_the_handshake() {
    let mut config = ServerConfig::new();
    let mut handshake = Handshake::link(SERVER, "fresh-id", "ABC123");
    let mut transport = FakeTransport::connect(vec![None]);
    let step = run(&mut handshake, &mut config, &mut transport);
    assert_eq!(step, Step::Rejected(MineChatError::ConnectionClosed));
    assert_eq!(handshake.state(), HandshakeState::Rejected);
    assert!(config.servers.is_empty());
}

#[test]
fn a_failed_connection_ends_the_handshake() {
    let mut handshake = Handshake::link(SERVER, "fresh-id", "ABC123");
    assert_eq!(
        handshake.fail("connection refused"),
        Step::Rejected(MineChatError::Transport("connection refused".to_string()))
    );
    assert_eq!(handshake.state(), HandshakeState::Rejected);

    let mut handshake = Handshake::link(SERVER, "fresh-id", "ABC123");
    handshake.begin();
    assert_eq!(
        handshake.fail("broken pipe"),
        Step::Rejected(MineChatError::Transport("broken pipe".to_string()))
    );
    assert_eq!(handshake.state(), HandshakeState::Rejected);
}

#[test]
fn the_request_is_handed_out_once() {
    let mut handshake = Handshake::link(SERVER, "fresh-id", "ABC123");
    assert!(matches!(handshake.begin(), Step::Send(_)));
    assert_eq!(handshake.begin(), Step::Ignored);
    assert_eq!(handshake.state(), HandshakeState::AwaitingAck);
}

#[test]
fn an_answer_before_the_request_is_ignored() {
    let mut config = ServerConfig::new();
    let mut handshake = Handshake::link(SERVER, "fresh-id", "ABC123");
    assert_eq!(handshake.receive(ack("success", "Linked", None), &mut config), Step::Ignored);
    assert_eq!(handshake.receive_line(b"not json\n", &mut config), Step::Ignored);
    assert_eq!(handshake.closed(), Step::Ignored);
    assert_eq!(handshake.state(), HandshakeState::Start);
    assert!(config.servers.is_empty());
}

#[test]
fn a_finished_handshake_ignores_everything() {
    let mut config = ServerConfig::new();
    let mut accepted = Handshake::link(SERVER, "fresh-id", "ABC123");
    accepted.begin();
    accepted.receive(ack("success", "Linked", None), &mut config);
    let mut rejected = Handshake::link(SERVER, "other-id", "WRONG");
    rejected.begin();
    rejected.receive(ack("failure", "bad code", None), &mut config);
    let recorded = config.clone();
    for (handshake, state) in [
        (&mut accepted, HandshakeState::Authenticated),
        (&mut rejected, HandshakeState::Rejected),
    ] {
        assert_eq!(handshake.begin(), Step::Ignored);
        assert_eq!(handshake.receive(ack("success", "again", None), &mut config), Step::Ignored);
        assert_eq!(
            handshake.receive_line(&encode(&ack("success", "again", None)).unwrap(), &mut config),
            Step::Ignored
        );
        assert_eq!(handshake.closed(), Step::Ignored);
        assert_eq!(handshake.fail("reset"), Step::Ignored);
        assert_eq!(handshake.state(), state);
    }
    assert_eq!(config, recorded);
}

#[test]
fn judge_accepts_only_the_status_success() {
    assert_eq!(judge(ack("success", "Welcome", None)), Ok("Welcome".to_string()));
    assert_eq!(
        judge(ack("failure", "bad code", None)),
        Err(MineChatError::AuthFailed("bad code".to_string()))
    );
    assert_eq!(
        judge(ack("Success", "almost", None)),
        Err(MineChatError::AuthFailed("almost".to_string()))
    );
    assert_eq!(judge(ack("", "", None)), Err(MineChatError::AuthFailed(String::new())));
    assert_eq!(
        judge(MineChatMessage::Chat { payload: ChatPayload { message: "hi".to_string() } }),
        Err(MineChatError::AuthFailed("Unexpected response".to_string()))
    );
    assert_eq!(
        judge(auth("u", "c")),
        Err(MineChatError::AuthFailed("Unexpected response".to_string()))
    );
}
