use chat_gateway::close_code::GatewayCloseCode;
use chat_gateway::gateway_event::GatewayEvent;
use chat_gateway::gateway_event::GatewayMessage;
use chat_gateway::gateway_event::HelloPayload;
use chat_gateway::handshake::HandshakeEffect;
use chat_gateway::handshake::HandshakeInput;
use chat_gateway::handshake::HandshakeState;
use chat_gateway::handshake::handshake_step;
use chat_gateway::pipeline::heartbeat_deadline;
use chat_gateway::pipeline::reader_step;
use chat_gateway::pipeline::run_writer;
use chat_gateway::pipeline::seeder_plan;
use chat_gateway::pipeline::teardown_event;
use chat_gateway::pipeline::watchdog_step;
use chat_gateway::pipeline::InboundFrame;
use chat_gateway::pipeline::ReaderAction;
use chat_gateway::pipeline::WatchdogAction;
use chat_gateway::pipeline::WatchdogInput;
use chat_gateway::pipeline::HEARTBEAT_INTERVAL;
use chat_gateway::presence::Presence;
use chat_gateway::registry::GatewayResponse;
use chat_gateway::snowflake::Snowflake;
use chat_gateway::user::User;
use chat_gateway::wire::encode_event;
use std::sync::Arc;

fn user42() -> User {
    User {
        id: Snowflake::new(42),
        username: "tester".to_string(),
        display_name: None,
        last_presence: Presence::Online,
        displayed_presence: None,
    }
}

#[test]
fn writer_stops_at_first_close_and_keeps_order() {
    let hello = GatewayEvent::Hello(HelloPayload::new(45000));
    let queue = vec![
        GatewayResponse::Event(Arc::new(hello.clone())),
        GatewayResponse::Event(Arc::new(GatewayEvent::HeartbeatAck)),
        GatewayResponse::Close(GatewayCloseCode::Normal, "bye".to_string()),
        GatewayResponse::Event(Arc::new(GatewayEvent::HeartbeatAck)),
    ];
    let (frames, close) = run_writer(&queue);
    assert_eq!(frames.len(), 2);
    assert_eq!(frames[0], encode_event(&hello));
    assert_eq!(frames[1], encode_event(&GatewayEvent::HeartbeatAck));
    let (code, reason) = close.expect("the close frame is written");
    assert_eq!(code, 1000);
    assert_eq!(reason, "bye");
}

#[test]
fn writer_without_close_drains_everything() {
    let queue = vec![
        GatewayResponse::Event(Arc::new(GatewayEvent::HeartbeatAck)),
        GatewayResponse::Event(Arc::new(GatewayEvent::HeartbeatAck)),
    ];
    let (frames, close) = run_writer(&queue);
    assert_eq!(frames.len(), 2);
    assert!(close.is_none());
}

#[test]
fn watchdog_fires_on_timeout() {
    let (action, exit) = watchdog_step(WatchdogInput::Timeout);
    match action {
        WatchdogAction::CloseSession(code, reason) => {
            assert_eq!(code.code(), 1008);
            assert!(reason.contains("HEARTBEAT"));
        }
        _ => panic!("expected a close"),
    }
    assert!(exit);
}

#[test]
fn watchdog_acknowledges_heartbeats() {
    let (action, exit) = watchdog_step(WatchdogInput::Message(GatewayMessage::Heartbeat));
    assert!(matches!(action, WatchdogAction::ReplyAck));
    assert!(!exit);
    assert_eq!(heartbeat_deadline(HEARTBEAT_INTERVAL), 50000);
}

#[test]
fn reader_closes_on_garbage_and_exits_on_close() {
    match reader_step(InboundFrame::Text("not json".to_string())) {
        ReaderAction::CloseWith(code, reason) => {
            assert_eq!(code.code(), 1007);
            assert_eq!(reason, "Invalid request payload");
        }
        _ => panic!("expected a close"),
    }
    assert!(matches!(reader_step(InboundFrame::CloseFrame), ReaderAction::Exit));
    match reader_step(InboundFrame::Unsupported) {
        ReaderAction::CloseWith(code, _) => assert_eq!(code.code(), 1003),
        _ => panic!("expected a close"),
    }
    match reader_step(InboundFrame::Text("{\"event\":\"HEARTBEAT\"}".to_string())) {
        ReaderAction::Publish(GatewayMessage::Heartbeat) => {}
        _ => panic!("expected a published heartbeat"),
    }
}

#[test]
fn seeder_sends_ready_then_guild_creates_then_presence() {
    let (events, update) = seeder_plan(user42(), vec![], vec![]);
    assert_eq!(events.len(), 1);
    assert!(matches!(events[0], GatewayEvent::Ready(_)));
    match update.expect("online users announce themselves") {
        GatewayEvent::PresenceUpdate(p) => {
            assert_eq!(p.user_id.value, 42);
            assert_eq!(p.presence, Presence::Online);
        }
        _ => panic!("expected a presence update"),
    }
}

#[test]
fn seeder_is_silent_for_offline_users() {
    let mut u = user42();
    u.last_presence = Presence::Offline;
    let (events, update) = seeder_plan(u, vec![], vec![]);
    assert_eq!(events.len(), 1);
    assert!(update.is_none());
}

#[test]
fn teardown_announces_offline_unless_already_offline() {
    match teardown_event(Snowflake::new(9), Presence::Busy) {
        Some(GatewayEvent::PresenceUpdate(p)) => {
            assert_eq!(p.user_id.value, 9);
            assert_eq!(p.presence, Presence::Offline);
        }
        _ => panic!("expected a presence update"),
    }
    assert!(teardown_event(Snowflake::new(9), Presence::Offline).is_none());
}

#[test]
fn handshake_happy_path_registers() {
    let (s, e) = handshake_step(HandshakeState::Start, HandshakeInput::HelloSent { ok: true });
    assert!(matches!(e, HandshakeEffect::AwaitFrame));
    let (s, e) = handshake_step(
        s,
        HandshakeInput::TextFrame(
            "{\"event\":\"IDENTIFY\",\"data\":{\"token\":\"tok\"}}".to_string(),
        ),
    );
    match &e {
        HandshakeEffect::ValidateToken(t) => assert_eq!(t, "tok"),
        _ => panic!("expected token validation"),
    }
    let (s, _) = handshake_step(s, HandshakeInput::TokenValid { user_id: Snowflake::new(42) });
    let (s, _) = handshake_step(s, HandshakeInput::UserFound(user42()));
    let (s, e) = handshake_step(s, HandshakeInput::GuildsLoaded(vec![Snowflake::new(7)]));
    assert!(matches!(e, HandshakeEffect::Settle));
    match s {
        HandshakeState::Registered { user, guild_ids } => {
            assert_eq!(user.id.value, 42);
            assert_eq!(guild_ids.len(), 1);
        }
        _ => panic!("expected a registered session"),
    }
}

#[test]
fn handshake_missing_identify_closes_1008() {
    let (s, _) = handshake_step(HandshakeState::Start, HandshakeInput::HelloSent { ok: true });
    let (s, _) = handshake_step(s, HandshakeInput::NoFrame);
    match s {
        HandshakeState::Closed { code, reason } => {
            assert_eq!(code.code(), 1008);
            assert!(reason.contains("IDENTIFY expected"));
        }
        _ => panic!("expected a closed handshake"),
    }
}

#[test]
fn handshake_bad_token_closes_1008() {
    let (s, _) = handshake_step(HandshakeState::Start, HandshakeInput::HelloSent { ok: true });
    let (s, _) = handshake_step(
        s,
        HandshakeInput::TextFrame(
            "{\"event\":\"IDENTIFY\",\"data\":{\"token\":\"deadbeef\"}}".to_string(),
        ),
    );
    let (s, _) = handshake_step(s, HandshakeInput::TokenInvalid);
    match s {
        HandshakeState::Closed { code, reason } => {
            assert_eq!(code.code(), 1008);
            assert_eq!(reason, "Invalid token");
        }
        _ => panic!("expected a closed handshake"),
    }
}

#[test]
fn handshake_non_identify_closes_1007() {
    let (s, _) = handshake_step(HandshakeState::Start, HandshakeInput::HelloSent { ok: true });
    let (s, _) = handshake_step(
        s,
        HandshakeInput::TextFrame("{\"event\":\"HEARTBEAT\"}".to_string()),
    );
    match s {
        HandshakeState::Closed { code, .. } => assert_eq!(code.code(), 1007),
        _ => panic!("expected a closed handshake"),
    }
}

#[test]
fn handshake_store_error_closes_1011() {
    let (s, _) = handshake_step(HandshakeState::Start, HandshakeInput::HelloSent { ok: true });
    let (s, _) = handshake_step(
        s,
        HandshakeInput::TextFrame(
            "{\"event\":\"IDENTIFY\",\"data\":{\"token\":\"tok\"}}".to_string(),
        ),
    );
    let (s, _) = handshake_step(s, HandshakeInput::StoreError);
    match s {
        HandshakeState::Closed { code, .. } => assert_eq!(code.code(), 1011),
        _ => panic!("expected a closed handshake"),
    }
}
