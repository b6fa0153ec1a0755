use crate::snowflake::ChannelKind;
use crate::snowflake::GuildKind;
use crate::snowflake::Snowflake;
use vstd::prelude::*;

verus! {

/// Represents a row describing a channel.
pub struct ChannelRecord {
    pub id: i64,
    pub guild_id: i64,
    pub name: String,
    pub channel_type: String,
}

/// The mathematical content of a [`Channel`].
pub struct ChannelView {
    pub id: u64,
    pub guild_id: u64,
    pub name: Seq<char>,
}

/// A guild text channel.
#[derive(Debug, Clone)]
pub struct TextChannel {
    pub id: Snowflake<ChannelKind>,
    pub guild_id: Snowflake<GuildKind>,
    pub name: String,
}

impl TextChannel {
    /// Create a new text channel with the given IDs and name.
    pub fn new(id: Snowflake<ChannelKind>, guild: Snowflake<GuildKind>, name: String) -> (r: Self)
        ensures
            r.id == id,
            r.guild_id == guild,
            r.name == name,
    {
        TextChannel { id, guild_id: guild, name }
    }
}

/// A message container inside a guild. Only text channels exist for
/// now; the enum leaves room for more kinds.
#[non_exhaustive]
#[derive(Debug, Clone)]
pub enum Channel {
    GuildText(TextChannel),
}

impl View for Channel {
    type V = ChannelView;

    open spec fn view(&self) -> ChannelView {
        match self {
            Channel::GuildText(c) => ChannelView {
                id: c.id.value,
                guild_id: c.guild_id.value,
                name: c.name@,
            },
        }
    }
}

impl Channel {
    /// The Snowflake ID of the channel.
    pub fn id(&self) -> (r: Snowflake<ChannelKind>)
        ensures
            r.value == self@.id,
    {
        match self {
            Channel::GuildText(c) => c.id,
        }
    }

    /// The Snowflake ID of the guild this channel belongs to.
    pub fn guild_id(&self) -> (r: Snowflake<GuildKind>)
        ensures
            r.value == self@.guild_id,
    {
        match self {
            Channel::GuildText(c) => c.guild_id,
        }
    }

    /// The name of the channel.
    pub fn name(&self) -> (r: &str)
        ensures
            r@ == self@.name,
    {
        match self {
            Channel::GuildText(c) => c.name.as_str(),
        }
    }

    /// Build a channel object directly from a database record. Rows
    /// of any other channel type do not describe a channel this
    /// module knows, so they are left out.
    pub fn from_record(record: ChannelRecord) -> (r: Self)
        requires
            record.channel_type@ == "TEXT_CHANNEL"@,
        ensures
            r@.id == record.id as u64,
            r@.guild_id == record.guild_id as u64,
            r@.name == record.name@,
    {
        Channel::GuildText(
            TextChannel::new(
                Snowflake::new(record.id as u64),
                Snowflake::new(record.guild_id as u64),
                record.name,
            ),
        )
    }
}

} // verus!
