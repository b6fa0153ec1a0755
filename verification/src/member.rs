use crate::presence::Presence;
use crate::snowflake::GuildKind;
use crate::snowflake::Snowflake;
use crate::snowflake::UserKind;
use crate::user::User;
use crate::user::UserView;
use vstd::prelude::*;

verus! {

/// Represents a guild member record stored in the database.
pub struct MemberRecord {
    pub user_id: i64,
    pub guild_id: i64,
    pub nickname: Option<String>,
    pub joined_at: i64,
}

/// Represents a guild member record with associated user data as queried.
pub struct ExtendedMemberRecord {
    pub user_id: i64,
    pub guild_id: i64,
    pub nickname: Option<String>,
    pub joined_at: i64,
    pub username: String,
    pub display_name: Option<String>,
    pub last_presence: i16,
}

/// The mathematical content of a [`Member`].
pub struct MemberView {
    pub user: UserView,
    pub guild_id: u64,
    pub nickname: Option<Seq<char>>,
    pub joined_at: i64,
}

/// The intersection of a user and a guild; carries nickname and join
/// time.
#[derive(Debug, Clone)]
pub struct Member {
    /// The user this guild member represents.
    pub user: User,
    /// The id of the guild this member is in.
    pub guild_id: Snowflake<GuildKind>,
    /// Nickname of the user in this guild, if set.
    pub nickname: Option<String>,
    /// UNIX timestamp of when the user joined the guild.
    pub joined_at: i64,
}

impl View for Member {
    type V = MemberView;

    open spec fn view(&self) -> MemberView {
        MemberView {
            user: self.user@,
            guild_id: self.guild_id.value,
            nickname: match self.nickname {
                Some(ref n) => Some(n@),
                None => None,
            },
            joined_at: self.joined_at,
        }
    }
}

impl Member {
    /// Create a new member with the given user, guild id, nickname,
    /// and joined-at timestamp.
    pub fn new(user: User, guild: Snowflake<GuildKind>, nickname: Option<String>, joined_at: i64) -> (r:
        Self)
        ensures
            r.user == user,
            r.guild_id == guild,
            r.nickname == nickname,
            r.joined_at == joined_at,
    {
        Member { user, guild_id: guild, nickname, joined_at }
    }

    /// The user this guild member represents.
    pub fn user(&self) -> (r: &User)
        ensures
            r == &self.user,
    {
        &self.user
    }

    /// Mutable handle to the user this guild member represents.
    pub fn user_mut(&mut self) -> (r: &mut User)
        ensures
            *r == old(self).user,
            *final(self) == (Member { user: *final(r), ..*old(self) }),
    {
        &mut self.user
    }

    /// The id of the guild this member is in.
    pub fn guild_id(&self) -> (r: Snowflake<GuildKind>)
        ensures
            r == self.guild_id,
    {
        self.guild_id
    }

    /// Nickname of the user in this guild, if set.
    pub fn nickname(&self) -> (r: &Option<String>)
        ensures
            r == &self.nickname,
    {
        &self.nickname
    }

    /// UNIX timestamp of when the user joined the guild.
    pub fn joined_at(&self) -> (r: i64)
        ensures
            r == self.joined_at,
    {
        self.joined_at
    }

    /// Include the user's displayed presence in the member payload.
    pub fn include_presence(self, gateway: &crate::registry::Gateway) -> (r: Self)
        ensures
            r.guild_id == self.guild_id,
            r.nickname == self.nickname,
            r.joined_at == self.joined_at,
            r.user == (User {
                displayed_presence: Some(self.user.spec_displayed_presence(*gateway)),
                ..self.user
            }),
    {
        let user = self.user.include_presence(gateway);
        Member { user, ..self }
    }

    /// Build a member object directly from a database record; the
    /// user data is contained in the record.
    pub fn from_extended_record(record: ExtendedMemberRecord) -> (r: Self)
        ensures
            r.user.id.value == record.user_id as u64,
            r.user.username == record.username,
            r.user.display_name == record.display_name,
            r.user.last_presence == Presence::spec_from_code(record.last_presence),
            r.user.displayed_presence is None,
            r.guild_id.value == record.guild_id as u64,
            r.nickname == record.nickname,
            r.joined_at == record.joined_at,
    {
        let user = User {
            id: Snowflake::new(record.user_id as u64),
            username: record.username,
            display_name: record.display_name,
            last_presence: Presence::from_code(record.last_presence),
            displayed_presence: None,
        };
        Member {
            user,
            guild_id: Snowflake::new(record.guild_id as u64),
            nickname: record.nickname,
            joined_at: record.joined_at,
        }
    }
}

/// The mathematical content of a [`UserLike`].
pub enum UserLikeView {
    Member(MemberView),
    User(UserView),
}

/// A user or member, depending on the context.
#[derive(Debug, Clone)]
pub enum UserLike {
    Member(Member),
    User(User),
}

impl View for UserLike {
    type V = UserLikeView;

    open spec fn view(&self) -> UserLikeView {
        match self {
            UserLike::Member(m) => UserLikeView::Member(m@),
            UserLike::User(u) => UserLikeView::User(u@),
        }
    }
}

impl UserLike {
    /// The ID of the underlying user.
    pub fn id(&self) -> (r: Snowflake<UserKind>)
        ensures
            r.value == self.spec_id(),
    {
        match self {
            UserLike::Member(member) => member.user.id,
            UserLike::User(user) => user.id,
        }
    }

    /// The ID that [`UserLike::id`] returns.
    pub open spec fn spec_id(&self) -> u64 {
        match self {
            UserLike::Member(m) => m.user.id.value,
            UserLike::User(u) => u.id.value,
        }
    }
}

} // verus!
