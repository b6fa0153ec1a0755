use chat_gateway::attachment::Attachment;
use chat_gateway::attachment::PartialAttachment;
use chat_gateway::channel::Channel;
use chat_gateway::channel::TextChannel;
use chat_gateway::gateway_event::GatewayEvent;
use chat_gateway::gateway_event::GatewayMessage;
use chat_gateway::gateway_event::GuildCreatePayload;
use chat_gateway::gateway_event::HelloPayload;
use chat_gateway::gateway_event::PresenceUpdatePayload;
use chat_gateway::gateway_event::ReadyPayload;
use chat_gateway::guild::Guild;
use chat_gateway::member::Member;
use chat_gateway::message::Message;
use chat_gateway::presence::Presence;
use chat_gateway::snowflake::Snowflake;
use chat_gateway::user::User;
use chat_gateway::wire::encode_event;
use chat_gateway::wire::parse_client_message;

fn user42() -> User {
    User {
        id: Snowflake::new(42),
        username: "tester".to_string(),
        display_name: None,
        last_presence: Presence::Online,
        displayed_presence: None,
    }
}

fn guild7() -> Guild {
    Guild::new(Snowflake::new(7), "den".to_string(), Snowflake::new(42))
}

fn frame_str(e: &GatewayEvent) -> String {
    String::from_utf8(encode_event(e)).expect("frames are UTF-8")
}

#[test]
fn hello_frame_matches_wire_format() {
    let e = GatewayEvent::Hello(HelloPayload::new(45000));
    assert_eq!(
        frame_str(&e),
        "{\"event\":\"HELLO\",\"data\":{\"heartbeat_interval\":45000}}"
    );
}

#[test]
fn ready_frame_matches_wire_format() {
    let e = GatewayEvent::Ready(ReadyPayload::new(user42(), vec![guild7()]));
    assert_eq!(
        frame_str(&e),
        "{\"event\":\"READY\",\"data\":{\"user\":{\"id\":\"42\",\"username\":\"tester\",\"display_name\":null,\"presence\":null},\"guilds\":[{\"id\":\"7\",\"name\":\"den\",\"owner_id\":\"42\"}]}}"
    );
}

#[test]
fn guild_create_frame_matches_wire_format() {
    let mut member_user = user42();
    member_user.displayed_presence = Some(Presence::Online);
    let member = Member {
        user: member_user,
        guild_id: Snowflake::new(7),
        nickname: Some("tes".to_string()),
        joined_at: -3,
    };
    let channel = Channel::GuildText(TextChannel::new(
        Snowflake::new(9),
        Snowflake::new(7),
        "general".to_string(),
    ));
    let e = GatewayEvent::GuildCreate(GuildCreatePayload::new(
        guild7(),
        vec![member],
        vec![channel],
    ));
    assert_eq!(
        frame_str(&e),
        "{\"event\":\"GUILD_CREATE\",\"data\":{\"guild\":{\"id\":\"7\",\"name\":\"den\",\"owner_id\":\"42\"},\"members\":[{\"user\":{\"id\":\"42\",\"username\":\"tester\",\"display_name\":null,\"presence\":\"ONLINE\"},\"guild_id\":\"7\",\"nickname\":\"tes\",\"joined_at\":-3}],\"channels\":[{\"type\":\"GUILD_TEXT\",\"id\":\"9\",\"guild_id\":\"7\",\"name\":\"general\"}]}}"
    );
}

#[test]
fn presence_update_frame_matches_wire_format() {
    let e = GatewayEvent::PresenceUpdate(PresenceUpdatePayload {
        user_id: Snowflake::new(42),
        presence: Presence::Online,
    });
    assert_eq!(
        frame_str(&e),
        "{\"event\":\"PRESENCE_UPDATE\",\"data\":{\"user_id\":\"42\",\"presence\":\"ONLINE\"}}"
    );
}

#[test]
fn heartbeat_ack_frame_matches_wire_format() {
    assert_eq!(frame_str(&GatewayEvent::HeartbeatAck), "{\"event\":\"HEARTBEAT_ACK\"}");
}

#[test]
fn invalid_session_escapes_reason() {
    let e = GatewayEvent::InvalidSession("a\"b\\c\nd\u{1}".to_string());
    assert_eq!(
        frame_str(&e),
        "{\"event\":\"INVALID_SESSION\",\"data\":\"a\\\"b\\\\c\\nd\\u0001\"}"
    );
}

#[test]
fn message_frame_carries_attachments() {
    let attachment = PartialAttachment::new(
        0,
        "cat.png".to_string(),
        "image/png".to_string(),
        Snowflake::new(2),
        Snowflake::new(1),
    );
    let e = GatewayEvent::MessageCreate(Message {
        id: Snowflake::new(1),
        channel_id: Snowflake::new(2),
        author: None,
        nonce: Some("n1".to_string()),
        content: Some("look".to_string()),
        attachments: vec![Attachment::Partial(attachment)],
    });
    assert_eq!(
        frame_str(&e),
        "{\"event\":\"MESSAGE_CREATE\",\"data\":{\"id\":\"1\",\"channel_id\":\"2\",\"author\":null,\"nonce\":\"n1\",\"content\":\"look\",\"attachments\":[{\"id\":0,\"filename\":\"cat.png\",\"content_type\":\"image/png\"}]}}"
    );
}

#[test]
fn identify_frame_parses() {
    let msg = parse_client_message("{\"event\":\"IDENTIFY\",\"data\":{\"token\":\"deadbeef\"}}")
        .expect("frame is in the grammar");
    match msg {
        GatewayMessage::Identify(p) => assert_eq!(p.token, "deadbeef"),
        _ => panic!("expected an identify message"),
    }
}

#[test]
fn identify_frame_parses_with_whitespace() {
    let msg = parse_client_message(
        " { \"event\" : \"IDENTIFY\" ,\n\t\"data\" : { \"token\" : \"a.b-c_d\" } } ",
    )
    .expect("frame is in the grammar");
    match msg {
        GatewayMessage::Identify(p) => assert_eq!(p.token, "a.b-c_d"),
        _ => panic!("expected an identify message"),
    }
}

#[test]
fn heartbeat_frame_parses() {
    assert!(matches!(
        parse_client_message("{\"event\":\"HEARTBEAT\"}"),
        Some(GatewayMessage::Heartbeat)
    ));
    assert!(matches!(
        parse_client_message("{\"event\":\"HEARTBEAT\",\"data\":null}"),
        Some(GatewayMessage::Heartbeat)
    ));
}

#[test]
fn event_scopes_follow_the_routing_rule() {
    let member = Member {
        user: user42(),
        guild_id: Snowflake::new(7),
        nickname: None,
        joined_at: 0,
    };
    let remove = GatewayEvent::MemberRemove(member);
    assert_eq!(remove.extract_guild_id().map(|g| g.value), Some(7));
    assert!(remove.extract_user_id().is_none());

    let update = GatewayEvent::PresenceUpdate(PresenceUpdatePayload {
        user_id: Snowflake::new(42),
        presence: Presence::Away,
    });
    assert!(update.extract_guild_id().is_none());
    assert_eq!(update.extract_user_id().map(|u| u.value), Some(42));

    // a message whose author is a bare user carries no guild scope
    let bare = GatewayEvent::MessageCreate(Message {
        id: Snowflake::new(1),
        channel_id: Snowflake::new(2),
        author: Some(chat_gateway::member::UserLike::User(user42())),
        nonce: None,
        content: Some("x".to_string()),
        attachments: Vec::new(),
    });
    assert!(bare.extract_guild_id().is_none());

    assert!(GatewayEvent::HeartbeatAck.extract_guild_id().is_none());
    assert!(GatewayEvent::HeartbeatAck.extract_user_id().is_none());

    let removal = GatewayEvent::GuildRemove(guild7());
    assert_eq!(removal.extract_guild_id().map(|g| g.value), Some(7));
}

#[test]
fn malformed_frames_are_rejected() {
    assert!(parse_client_message("").is_none());
    assert!(parse_client_message("not json").is_none());
    assert!(parse_client_message("{\"event\":\"IDENTIFY\"}").is_none());
    assert!(parse_client_message("{\"event\":\"UNKNOWN\",\"data\":null}").is_none());
    assert!(parse_client_message("{\"event\":\"HEARTBEAT\"} trailing").is_none());
    // escape sequences are outside the token grammar
    assert!(
        parse_client_message("{\"event\":\"IDENTIFY\",\"data\":{\"token\":\"a\\\"b\"}}").is_none()
    );
}
