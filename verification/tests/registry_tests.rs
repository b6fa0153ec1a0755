use chat_gateway::close_code::GatewayCloseCode;
use chat_gateway::gateway_event::GatewayEvent;
use chat_gateway::gateway_event::PresenceUpdatePayload;
use chat_gateway::member::Member;
use chat_gateway::member::UserLike;
use chat_gateway::message::Message;
use chat_gateway::presence::Presence;
use chat_gateway::registry::ConnectionHandle;
use chat_gateway::registry::Gateway;
use chat_gateway::registry::GatewayResponse;
use chat_gateway::snowflake::GuildKind;
use chat_gateway::snowflake::Snowflake;
use chat_gateway::snowflake::UserKind;
use chat_gateway::user::User;

fn uid(v: u64) -> Snowflake<UserKind> {
    Snowflake::new(v)
}

fn gid(v: u64) -> Snowflake<GuildKind> {
    Snowflake::new(v)
}

fn user(v: u64, name: &str) -> User {
    User {
        id: uid(v),
        username: name.to_string(),
        display_name: None,
        last_presence: Presence::Online,
        displayed_presence: None,
    }
}

fn handle(v: u64, guilds: &[u64]) -> ConnectionHandle {
    let mut gids: Vec<Snowflake<GuildKind>> = Vec::new();
    for g in guilds {
        gids.push(gid(*g));
    }
    ConnectionHandle::new(uid(v), gids)
}

fn outbound_of(gw: &Gateway, v: u64) -> Vec<GatewayEvent> {
    let mut events = Vec::new();
    for h in &gw.peers {
        if h.user_id.value == v {
            for resp in &h.outbound {
                if let GatewayResponse::Event(e) = resp {
                    events.push((**e).clone());
                }
            }
        }
    }
    events
}

fn message_from_member(author: u64, guild: u64) -> GatewayEvent {
    let member = Member {
        user: user(author, "author"),
        guild_id: gid(guild),
        nickname: None,
        joined_at: 0,
    };
    GatewayEvent::MessageCreate(Message {
        id: Snowflake::new(1),
        channel_id: Snowflake::new(2),
        author: Some(UserLike::Member(member)),
        nonce: None,
        content: Some("hi".to_string()),
        attachments: Vec::new(),
    })
}

#[test]
fn insert_and_query() {
    let mut gw = Gateway::new();
    assert!(!gw.is_connected(uid(1)));
    let prev = gw.add_handle(uid(1), handle(1, &[7]));
    assert!(prev.is_none());
    assert!(gw.is_connected(uid(1)));
    gw.remove_handle(uid(1));
    assert!(!gw.is_connected(uid(1)));
    // removing again is a no-op
    gw.remove_handle(uid(1));
    assert!(!gw.is_connected(uid(1)));
}

#[test]
fn session_replace_closes_previous_handle() {
    let mut gw = Gateway::new();
    assert!(gw.add_handle(uid(42), handle(42, &[7])).is_none());
    let prev = gw.add_handle(uid(42), handle(42, &[7, 9])).expect("previous handle returned");
    match prev.outbound.last().expect("close queued on the old handle") {
        GatewayResponse::Close(code, reason) => {
            assert_eq!(*code, GatewayCloseCode::Normal);
            assert_eq!(code.code(), 1000);
            assert_eq!(reason, "replaced by new session");
        }
        _ => panic!("expected a close response"),
    }
    // the registry still holds exactly one handle for the user: the new one
    assert!(gw.is_connected(uid(42)));
    assert_eq!(gw.peers.len(), 1);
    assert!(gw.peers[0].contains_guild(gid(9)));
}

#[test]
fn membership_updates_are_visible() {
    let mut gw = Gateway::new();
    gw.add_handle(uid(1), handle(1, &[]));
    gw.add_member(uid(1), gid(5));
    assert!(gw.peers[0].contains_guild(gid(5)));
    // adding twice keeps a single entry
    gw.add_member(uid(1), gid(5));
    assert_eq!(gw.peers[0].guild_ids().len(), 1);
    gw.remove_member(uid(1), gid(5));
    assert!(!gw.peers[0].contains_guild(gid(5)));
    // mutations for unknown users change nothing
    gw.add_member(uid(2), gid(5));
    assert_eq!(gw.peers.len(), 1);
}

#[test]
fn shares_guilds_requires_common_guild() {
    let mut gw = Gateway::new();
    gw.add_handle(uid(1), handle(1, &[7, 8]));
    gw.add_handle(uid(2), handle(2, &[8]));
    gw.add_handle(uid(3), handle(3, &[9]));
    assert!(gw.shares_guilds_with(uid(1), uid(2)));
    assert!(gw.shares_guilds_with(uid(2), uid(1)));
    assert!(!gw.shares_guilds_with(uid(1), uid(3)));
    assert!(!gw.shares_guilds_with(uid(1), uid(4)));
}

#[test]
fn guild_scoped_dispatch_filters_by_membership() {
    let mut gw = Gateway::new();
    gw.add_handle(uid(1), handle(1, &[100]));
    gw.add_handle(uid(2), handle(2, &[200]));
    gw.dispatch(message_from_member(1, 100));
    assert_eq!(outbound_of(&gw, 1).len(), 1);
    assert_eq!(outbound_of(&gw, 2).len(), 0);
}

#[test]
fn user_scoped_dispatch_reaches_subject_and_sharers() {
    let mut gw = Gateway::new();
    gw.add_handle(uid(10), handle(10, &[1, 2]));
    gw.add_handle(uid(11), handle(11, &[1]));
    gw.add_handle(uid(12), handle(12, &[3]));
    gw.dispatch(GatewayEvent::PresenceUpdate(PresenceUpdatePayload {
        user_id: uid(10),
        presence: Presence::Offline,
    }));
    assert_eq!(outbound_of(&gw, 10).len(), 1);
    assert_eq!(outbound_of(&gw, 11).len(), 1);
    assert_eq!(outbound_of(&gw, 12).len(), 0);
}

#[test]
fn unscoped_dispatch_reaches_everyone() {
    let mut gw = Gateway::new();
    gw.add_handle(uid(1), handle(1, &[1]));
    gw.add_handle(uid(2), handle(2, &[2]));
    gw.dispatch(GatewayEvent::HeartbeatAck);
    assert_eq!(outbound_of(&gw, 1).len(), 1);
    assert_eq!(outbound_of(&gw, 2).len(), 1);
}

#[test]
fn send_to_reaches_only_target() {
    let mut gw = Gateway::new();
    gw.add_handle(uid(1), handle(1, &[1]));
    gw.add_handle(uid(2), handle(2, &[1]));
    gw.send_to(uid(1), GatewayEvent::HeartbeatAck);
    assert_eq!(outbound_of(&gw, 1).len(), 1);
    assert_eq!(outbound_of(&gw, 2).len(), 0);
    // sending to a stranger is dropped
    gw.send_to(uid(3), GatewayEvent::HeartbeatAck);
    assert_eq!(gw.peers.len(), 2);
}

#[test]
fn drop_session_queues_requested_close() {
    let mut gw = Gateway::new();
    gw.add_handle(uid(1), handle(1, &[]));
    gw.drop_session(uid(1), GatewayCloseCode::PolicyViolation, "No HEARTBEAT received within timeframe".to_string());
    match gw.peers[0].outbound.last().expect("close queued") {
        GatewayResponse::Close(code, reason) => {
            assert_eq!(code.code(), 1008);
            assert!(reason.contains("HEARTBEAT"));
        }
        _ => panic!("expected a close response"),
    }
}

#[test]
fn displayed_presence_follows_connection() {
    let mut gw = Gateway::new();
    let u = user(5, "bob");
    assert_eq!(u.presence(&gw), Presence::Offline);
    gw.add_handle(uid(5), handle(5, &[]));
    assert_eq!(u.presence(&gw), Presence::Online);
    let seeded = u.clone().include_presence(&gw);
    assert_eq!(seeded.displayed_presence, Some(Presence::Online));
    gw.remove_handle(uid(5));
    assert_eq!(u.presence(&gw), Presence::Offline);
}
