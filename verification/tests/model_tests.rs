use chat_gateway::appstate::Buckets;
use chat_gateway::attachment::Attachment;
use chat_gateway::attachment::FullAttachment;
use chat_gateway::bucket::Bucket;
use chat_gateway::channel::Channel;
use chat_gateway::channel::ChannelRecord;
use chat_gateway::close_code::GatewayCloseCode;
use chat_gateway::errors::BuilderError;
use chat_gateway::member::Member;
use chat_gateway::member::UserLike;
use chat_gateway::message::ExtendedMessageRecord;
use chat_gateway::message::Message;
use chat_gateway::prefs::Layout;
use chat_gateway::prefs::PrefFlags;
use chat_gateway::prefs::Prefs;
use chat_gateway::prefs::PrefsUpdate;
use chat_gateway::presence::Presence;
use chat_gateway::rejections::ErrorMessage;
use chat_gateway::rejections::InternalServerError;
use chat_gateway::rejections::Unauthorized;
use chat_gateway::rest::CreateMessage;
use chat_gateway::snowflake::Snowflake;
use chat_gateway::snowflake::UserKind;
use chat_gateway::user::User;

fn record(id: i64, user: Option<i64>, att: Option<i32>) -> ExtendedMessageRecord {
    ExtendedMessageRecord {
        id,
        channel_id: 5,
        content: Some(format!("m{}", id)),
        user_id: user,
        username: user.map(|u| format!("u{}", u)),
        display_name: None,
        attachment_id: att,
        attachment_filename: att.map(|a| format!("f{}.png", a)),
        attachment_content_type: None,
    }
}

#[test]
fn close_codes_round_trip() {
    let codes = [
        GatewayCloseCode::Normal,
        GatewayCloseCode::GoingAway,
        GatewayCloseCode::ProtocolError,
        GatewayCloseCode::Unsupported,
        GatewayCloseCode::NoStatus,
        GatewayCloseCode::Abnormal,
        GatewayCloseCode::InvalidPayload,
        GatewayCloseCode::PolicyViolation,
        GatewayCloseCode::TooLarge,
        GatewayCloseCode::ExtensionRequired,
        GatewayCloseCode::ServerError,
        GatewayCloseCode::ServiceRestart,
        GatewayCloseCode::TryAgainLater,
        GatewayCloseCode::BadGateway,
        GatewayCloseCode::TLSHandshakeFail,
    ];
    for c in codes {
        assert_eq!(GatewayCloseCode::from_code(c.code()), c);
    }
    assert_eq!(GatewayCloseCode::from_code(4321), GatewayCloseCode::Abnormal);
    assert_eq!(GatewayCloseCode::PolicyViolation.code(), 1008);
}

#[test]
fn presence_codes_round_trip() {
    for p in [Presence::Online, Presence::Away, Presence::Busy, Presence::Offline] {
        assert_eq!(Presence::from_code(p.code()), p);
    }
    assert_eq!(Presence::from_code(99), Presence::Offline);
    assert_eq!(Presence::default(), Presence::Online);
}

#[test]
fn username_rules_are_enforced() {
    assert!(User::validate_username("abc").is_ok());
    assert!(User::validate_username("a.bc").is_ok());
    assert!(User::validate_username("a_b_cd").is_ok());
    assert!(User::validate_username("A1.b2").is_ok());
    // the run after a separator must go on for at least two characters
    assert!(User::validate_username("ab.c").is_err());
    assert!(User::validate_username(".abc").is_err());
    assert!(User::validate_username("abc.").is_err());
    assert!(User::validate_username("a..bc").is_err());
    assert!(User::validate_username("ab").is_err());
    assert!(User::validate_username("").is_err());
    assert!(User::validate_username("abc!").is_err());
    assert!(User::validate_username("abcdefghijklmnopqrstuvwxyz0123456").is_err());
    match User::validate_username("ab") {
        Err(BuilderError::ValidationError(m)) => assert!(m.contains("between 3 and 32")),
        _ => panic!("expected a length error"),
    }
}

#[test]
fn snowflake_unpacks_its_fields() {
    let id: Snowflake<UserKind> = Snowflake::new((1 << 22) + (3 << 17) + (5 << 12) + 9);
    assert_eq!(id.timestamp(), 1672531200001);
    assert_eq!(id.worker_id(), 3);
    assert_eq!(id.process_id(), 5);
}

#[test]
fn message_builder_requires_content_or_attachments() {
    let mut b = Message::builder();
    b.id(Snowflake::new(1));
    b.channel_id(Snowflake::new(2));
    b.author(UserLike::User(User {
        id: Snowflake::new(3),
        username: "abc".to_string(),
        display_name: None,
        last_presence: Presence::Online,
        displayed_presence: None,
    }));
    assert!(b.validate().is_err());
    match b.clone().build() {
        Err(BuilderError::ValidationError(m)) => {
            assert_eq!(m, "Message must have content or attachments")
        }
        _ => panic!("expected a validation error"),
    }
    b.content(Some("hello".to_string()));
    assert!(b.validate().is_ok());
    let m = b.build().expect("message builds");
    assert_eq!(m.content, Some("hello".to_string()));
}

#[test]
fn message_builder_reports_missing_fields() {
    let mut b = Message::builder();
    b.content(Some("hello".to_string()));
    match b.build() {
        Err(BuilderError::UninitializedField(f)) => assert_eq!(f, "id"),
        _ => panic!("expected a missing field error"),
    }
}

#[test]
fn from_records_groups_rows_by_message() {
    let rows = vec![
        record(1, Some(10), Some(0)),
        record(1, Some(10), Some(1)),
        record(2, None, None),
    ];
    let messages = Message::from_records(&rows);
    assert_eq!(messages.len(), 2);
    assert_eq!(messages[0].id.value, 1);
    assert_eq!(messages[0].attachments.len(), 2);
    assert_eq!(messages[0].content, Some("m1".to_string()));
    match &messages[0].author {
        Some(UserLike::User(u)) => assert_eq!(u.username, "u10"),
        _ => panic!("expected an author"),
    }
    assert_eq!(messages[1].id.value, 2);
    assert!(messages[1].author.is_none());
    assert!(messages[1].attachments.is_empty());
    let none: Vec<ExtendedMessageRecord> = Vec::new();
    assert!(Message::from_records(&none).is_empty());
}

#[test]
fn strip_attachment_contents_keeps_metadata() {
    let full = FullAttachment::new(
        0,
        "cat.png".to_string(),
        vec![1, 2, 3],
        "image/png".to_string(),
        Snowflake::new(2),
        Snowflake::new(1),
    );
    let m = Message {
        id: Snowflake::new(1),
        channel_id: Snowflake::new(2),
        author: None,
        nonce: None,
        content: Some("x".to_string()),
        attachments: vec![Attachment::Full(full)],
    };
    let stripped = m.strip_attachment_contents();
    match &stripped.attachments[0] {
        Attachment::Partial(p) => {
            assert_eq!(p.filename, "cat.png");
            assert_eq!(p.content_type, "image/png");
        }
        _ => panic!("expected a partial attachment"),
    }
}

#[test]
fn channel_from_record_reads_the_row() {
    let c = Channel::from_record(ChannelRecord {
        id: 9,
        guild_id: 7,
        name: "general".to_string(),
        channel_type: "TEXT_CHANNEL".to_string(),
    });
    assert_eq!(c.id().value, 9);
    assert_eq!(c.guild_id().value, 7);
    assert_eq!(c.name(), "general");
}

#[test]
fn member_keeps_user_and_guild() {
    let u = User {
        id: Snowflake::new(3),
        username: "abc".to_string(),
        display_name: None,
        last_presence: Presence::Away,
        displayed_presence: None,
    };
    let m = Member::new(u, Snowflake::new(7), Some("nick".to_string()), 11);
    assert_eq!(m.user().id.value, 3);
    assert_eq!(m.guild_id().value, 7);
    assert_eq!(m.nickname().clone(), Some("nick".to_string()));
    assert_eq!(m.joined_at(), 11);
}

#[test]
fn prefs_update_only_touches_given_fields() {
    let mut p = Prefs::new(Snowflake::new(1));
    assert_eq!(p.message_grouping_timeout, 60);
    assert_eq!(p.text_size, 12);
    p.update(PrefsUpdate {
        flags: Some(PrefFlags { bits: 1 }),
        message_grouping_timeout: None,
        layout: Some(Layout::Comfy),
        text_size: None,
        locale: Some("de_DE".to_string()),
    });
    assert_eq!(p.flags.bits(), 1);
    assert_eq!(p.message_grouping_timeout, 60);
    assert_eq!(p.layout, Layout::Comfy);
    assert_eq!(p.text_size, 12);
    assert_eq!(p.locale, "de_DE");
}

#[test]
fn pref_flags_reject_unknown_bits() {
    assert!(PrefFlags::from_bits(3).is_some());
    assert!(PrefFlags::from_bits(8).is_none());
    assert_eq!(PrefFlags::default().bits(), 3);
    assert!(PrefFlags::default().contains(PrefFlags { bits: 1 }));
    assert_eq!(Layout::from_code(9), Layout::Normal);
}

#[test]
fn rejection_bodies_carry_their_parts() {
    let e = ErrorMessage::new(404, "Not Found".to_string(), None);
    assert_eq!(e.code, 404);
    let u = Unauthorized::bearer("gateway");
    assert_eq!(u.header, "Bearer realm=\"gateway\"");
    assert_eq!(u.message, "Invalid token provided.");
    let db = InternalServerError::db();
    assert_eq!(db.message, "A database transaction error occured.");
}

#[test]
fn buckets_know_their_names() {
    let b = Bucket::new("attachments".to_string());
    assert_eq!(b.name(), "attachments");
    let all = Buckets::new();
    assert_eq!(all.attachments().name(), "attachments");
}

#[test]
fn create_message_request_keeps_fields() {
    let req = CreateMessage::new("hello".to_string(), Some("n".to_string()));
    assert_eq!(req.content(), "hello");
    assert_eq!(req.nonce().clone(), Some("n".to_string()));
}
