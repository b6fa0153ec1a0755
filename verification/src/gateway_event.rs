use crate::channel::Channel;
use crate::channel::ChannelView;
use crate::guild::Guild;
use crate::guild::GuildView;
use crate::member::Member;
use crate::member::MemberView;
use crate::member::UserLike;
use crate::message::Message;
use crate::message::MessageView;
use crate::presence::Presence;
use crate::snowflake::Snowflake;
use crate::snowflake::UserKind;
use crate::user::User;
use crate::user::UserView;
use vstd::prelude::*;

verus! {

/// Payload of the `HELLO` event: the heartbeat interval the client
/// must honour, in milliseconds.
#[derive(Debug, Clone)]
pub struct HelloPayload {
    pub heartbeat_interval: u64,
}

impl HelloPayload {
    /// Create a new payload with the given heartbeat interval.
    pub fn new(heartbeat_interval: u64) -> (r: Self)
        ensures
            r.heartbeat_interval == heartbeat_interval,
    {
        HelloPayload { heartbeat_interval }
    }
}

/// Payload of the `READY` event: the authenticated user and the
/// guilds they are in.
#[derive(Debug, Clone)]
pub struct ReadyPayload {
    pub user: User,
    pub guilds: Vec<Guild>,
}

impl ReadyPayload {
    /// Create a new payload for the given user and guilds.
    pub fn new(user: User, guilds: Vec<Guild>) -> (r: Self)
        ensures
            r.user == user,
            r.guilds == guilds,
    {
        ReadyPayload { user, guilds }
    }
}

/// The mathematical content of a [`GuildCreatePayload`].
pub struct GuildCreatePayloadView {
    pub guild: GuildView,
    pub members: Seq<MemberView>,
    pub channels: Seq<ChannelView>,
}

/// Payload of the `GUILD_CREATE` event: the guild with its members
/// (carrying displayed presences) and channels.
#[derive(Debug, Clone)]
pub struct GuildCreatePayload {
    pub guild: Guild,
    pub members: Vec<Member>,
    pub channels: Vec<Channel>,
}

impl View for GuildCreatePayload {
    type V = GuildCreatePayloadView;

    open spec fn view(&self) -> GuildCreatePayloadView {
        GuildCreatePayloadView {
            guild: self.guild@,
            members: self.members@.map_values(|m: Member| m@),
            channels: self.channels@.map_values(|c: Channel| c@),
        }
    }
}

impl GuildCreatePayload {
    /// Create a new payload from the guild's parts.
    pub fn new(guild: Guild, members: Vec<Member>, channels: Vec<Channel>) -> (r: Self)
        ensures
            r.guild == guild,
            r.members == members,
            r.channels == channels,
    {
        GuildCreatePayload { guild, members, channels }
    }
}

/// Payload of the `PRESENCE_UPDATE` event.
#[derive(Debug, Clone)]
pub struct PresenceUpdatePayload {
    pub user_id: Snowflake<UserKind>,
    pub presence: Presence,
}

/// The mathematical content of a [`GatewayEvent`].
pub enum GatewayEventView {
    Hello { heartbeat_interval: u64 },
    Ready { user: UserView, guilds: Seq<GuildView> },
    GuildCreate(GuildCreatePayloadView),
    GuildRemove(GuildView),
    ChannelCreate(ChannelView),
    ChannelRemove(ChannelView),
    MemberCreate(MemberView),
    MemberRemove(MemberView),
    MessageCreate(MessageView),
    PresenceUpdate { user_id: u64, presence: Presence },
    HeartbeatAck,
    InvalidSession(Seq<char>),
}

/// A JSON payload that can be pushed over the websocket to clients:
/// the tagged event algebra of the gateway.
#[non_exhaustive]
#[derive(Debug, Clone)]
pub enum GatewayEvent {
    /// The server greets a fresh socket and announces the heartbeat interval.
    Hello(HelloPayload),
    /// The server accepted the session; carries the user and their guilds.
    Ready(ReadyPayload),
    /// A guild became visible to the session.
    GuildCreate(GuildCreatePayload),
    /// A guild was deleted or left.
    GuildRemove(Guild),
    /// A channel was created.
    ChannelCreate(Channel),
    /// A channel was deleted.
    ChannelRemove(Channel),
    /// A member joined a guild.
    MemberCreate(Member),
    /// A member left a guild.
    MemberRemove(Member),
    /// A chat message was sent.
    MessageCreate(Message),
    /// A user's presence changed.
    PresenceUpdate(PresenceUpdatePayload),
    /// The server acknowledges a heartbeat.
    HeartbeatAck,
    /// The server is closing the session.
    InvalidSession(String),
}

impl View for GatewayEvent {
    type V = GatewayEventView;

    open spec fn view(&self) -> GatewayEventView {
        match self {
            GatewayEvent::Hello(p) => GatewayEventView::Hello {
                heartbeat_interval: p.heartbeat_interval,
            },
            GatewayEvent::Ready(p) => GatewayEventView::Ready {
                user: p.user@,
                guilds: p.guilds@.map_values(|g: Guild| g@),
            },
            GatewayEvent::GuildCreate(p) => GatewayEventView::GuildCreate(p@),
            GatewayEvent::GuildRemove(g) => GatewayEventView::GuildRemove(g@),
            GatewayEvent::ChannelCreate(c) => GatewayEventView::ChannelCreate(c@),
            GatewayEvent::ChannelRemove(c) => GatewayEventView::ChannelRemove(c@),
            GatewayEvent::MemberCreate(m) => GatewayEventView::MemberCreate(m@),
            GatewayEvent::MemberRemove(m) => GatewayEventView::MemberRemove(m@),
            GatewayEvent::MessageCreate(m) => GatewayEventView::MessageCreate(m@),
            GatewayEvent::PresenceUpdate(p) => GatewayEventView::PresenceUpdate {
                user_id: p.user_id.value,
                presence: p.presence,
            },
            GatewayEvent::HeartbeatAck => GatewayEventView::HeartbeatAck,
            GatewayEvent::InvalidSession(reason) => GatewayEventView::InvalidSession(reason@),
        }
    }
}

/// The guild a message event is scoped to: the author's guild, known
/// only when the author is a member.
pub open spec fn spec_message_guild_scope(m: Message) -> Option<u64> {
    match m.author {
        Some(UserLike::Member(member)) => Some(member.guild_id.value),
        _ => None,
    }
}

impl GatewayEvent {
    /// The guild this event is scoped to, if any: a guild-scoped
    /// event is delivered only to connected members of that guild.
    pub open spec fn spec_guild_scope(self) -> Option<u64> {
        match self {
            GatewayEvent::MessageCreate(m) => spec_message_guild_scope(m),
            GatewayEvent::MemberCreate(m) => Some(m.guild_id.value),
            GatewayEvent::MemberRemove(m) => Some(m.guild_id.value),
            GatewayEvent::GuildCreate(p) => Some(p.guild.id.value),
            GatewayEvent::GuildRemove(g) => Some(g.id.value),
            GatewayEvent::ChannelCreate(c) => Some(c@.guild_id),
            GatewayEvent::ChannelRemove(c) => Some(c@.guild_id),
            _ => None,
        }
    }

    /// The user this event describes, if any: a user-scoped event is
    /// delivered to that user and to everyone sharing a guild with
    /// them.
    pub open spec fn spec_user_scope(self) -> Option<u64> {
        match self {
            GatewayEvent::PresenceUpdate(p) => Some(p.user_id.value),
            GatewayEvent::Ready(p) => Some(p.user.id.value),
            _ => None,
        }
    }

    /// The guild this event is scoped to, if any.
    pub fn extract_guild_id(&self) -> (r: Option<Snowflake<crate::snowflake::GuildKind>>)
        ensures
            match r {
                Some(g) => self.spec_guild_scope() == Some(g.value),
                None => self.spec_guild_scope() is None,
            },
    {
        match self {
            GatewayEvent::MessageCreate(m) => match &m.author {
                Some(UserLike::Member(member)) => Some(member.guild_id),
                _ => None,
            },
            GatewayEvent::MemberCreate(m) => Some(m.guild_id),
            GatewayEvent::MemberRemove(m) => Some(m.guild_id),
            GatewayEvent::GuildCreate(p) => Some(p.guild.id),
            GatewayEvent::GuildRemove(g) => Some(g.id),
            GatewayEvent::ChannelCreate(c) => Some(c.guild_id()),
            GatewayEvent::ChannelRemove(c) => Some(c.guild_id()),
            _ => None,
        }
    }

    /// The user this event describes, if any.
    pub fn extract_user_id(&self) -> (r: Option<Snowflake<UserKind>>)
        ensures
            match r {
                Some(u) => self.spec_user_scope() == Some(u.value),
                None => self.spec_user_scope() is None,
            },
    {
        match self {
            GatewayEvent::PresenceUpdate(p) => Some(p.user_id),
            GatewayEvent::Ready(p) => Some(p.user.id),
            _ => None,
        }
    }
}

/// Payload of the client's `IDENTIFY` message.
#[derive(Debug, Clone)]
pub struct IdentifyPayload {
    pub token: String,
}

/// A JSON payload that a client can send over the websocket.
#[non_exhaustive]
#[derive(Debug, Clone)]
pub enum GatewayMessage {
    /// Identify with the server. This should be the first message sent by the client.
    Identify(IdentifyPayload),
    /// The client's periodic liveness signal.
    Heartbeat,
}

} // verus!
