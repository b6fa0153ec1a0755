use crate::snowflake::GuildKind;
use crate::snowflake::Snowflake;
use crate::snowflake::UserKind;
use vstd::prelude::*;

verus! {

/// Represents a guild record stored in the database.
pub struct GuildRecord {
    pub id: i64,
    pub name: String,
    pub owner_id: i64,
}

/// The mathematical content of a [`Guild`].
pub struct GuildView {
    pub id: u64,
    pub name: Seq<char>,
    pub owner_id: u64,
}

/// Represents a guild: a top-level grouping of members and channels.
#[derive(Debug, Clone)]
pub struct Guild {
    pub id: Snowflake<GuildKind>,
    pub name: String,
    pub owner_id: Snowflake<UserKind>,
}

impl View for Guild {
    type V = GuildView;

    open spec fn view(&self) -> GuildView {
        GuildView { id: self.id.value, name: self.name@, owner_id: self.owner_id.value }
    }
}

impl Guild {
    /// Create a new guild with the given id, name, and owner id.
    pub fn new(id: Snowflake<GuildKind>, name: String, owner: Snowflake<UserKind>) -> (r: Self)
        ensures
            r.id == id,
            r.name == name,
            r.owner_id == owner,
    {
        Guild { id, name, owner_id: owner }
    }

    /// The guild's ID.
    pub fn id(&self) -> (r: Snowflake<GuildKind>)
        ensures
            r == self.id,
    {
        self.id
    }

    /// The guild's name.
    pub fn name(&self) -> (r: &str)
        ensures
            r@ == self.name@,
    {
        self.name.as_str()
    }

    /// The guild's owner's ID.
    pub fn owner_id(&self) -> (r: Snowflake<UserKind>)
        ensures
            r == self.owner_id,
    {
        self.owner_id
    }

    /// Build a guild object directly from a database record.
    pub fn from_record(record: GuildRecord) -> (r: Self)
        ensures
            r.id.value == record.id as u64,
            r.name == record.name,
            r.owner_id.value == record.owner_id as u64,
    {
        Guild {
            id: Snowflake::new(record.id as u64),
            name: record.name,
            owner_id: Snowflake::new(record.owner_id as u64),
        }
    }
}

} // verus!
