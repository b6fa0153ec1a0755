use crate::errors::BuilderError;
use crate::presence::Presence;
use crate::requests::CreateUser;
use crate::snowflake::Snowflake;
use crate::snowflake::UserKind;
use vstd::prelude::*;
use vstd::string::StringSliceAdditionalSpecFns;
use vstd::utf8::encode_utf8;

verus! {

/// An ASCII letter or digit, the only characters a username run may
/// contain.
pub open spec fn is_alnum_byte(b: u8) -> bool {
    (97 <= b <= 122) || (65 <= b <= 90) || (48 <= b <= 57)
}

/// A separator allowed between username runs.
pub open spec fn is_sep_byte(b: u8) -> bool {
    b == 46 || b == 95
}

/// The username grammar: letters and digits, optionally broken by
/// single `.` or `_` separators. A separator is always followed by a
/// letter or digit, the name starts and ends with a letter or digit,
/// and the run after the last separator is at least two characters
/// long (a one-character name is allowed when there is no separator).
pub open spec fn username_matches(s: Seq<u8>) -> bool {
    if s.len() == 0 {
        false
    } else if s.len() == 1 {
        is_alnum_byte(s[0])
    } else {
        &&& forall|i: int| 0 <= i < s.len() ==> is_alnum_byte(#[trigger] s[i]) || is_sep_byte(s[i])
        &&& is_alnum_byte(s[0])
        &&& is_alnum_byte(s[s.len() - 1])
        &&& is_alnum_byte(s[s.len() - 2])
        &&& forall|i: int|
            0 <= i < s.len() && is_sep_byte(#[trigger] s[i]) ==> i + 1 < s.len() && is_alnum_byte(
                s[i + 1],
            )
    }
}

/// Whether a username is accepted: it matches the grammar and is
/// between 3 and 32 bytes long.
pub open spec fn username_accepted(s: Seq<u8>) -> bool {
    username_matches(s) && 3 <= s.len() <= 32
}

fn byte_is_alnum(b: u8) -> (r: bool)
    ensures
        r == is_alnum_byte(b),
{
    (97 <= b && b <= 122) || (65 <= b && b <= 90) || (48 <= b && b <= 57)
}

fn byte_is_sep(b: u8) -> (r: bool)
    ensures
        r == is_sep_byte(b),
{
    b == 46 || b == 95
}

/// Represents a user record stored in the database.
pub struct UserRecord {
    pub id: i64,
    pub username: String,
    pub display_name: Option<String>,
    pub last_presence: i16,
}

/// The mathematical content of a [`User`].
pub struct UserView {
    pub id: u64,
    pub username: Seq<char>,
    pub display_name: Option<Seq<char>>,
    pub last_presence: Presence,
    pub displayed_presence: Option<Presence>,
}

/// A user of the chat service.
#[derive(Debug, Clone)]
pub struct User {
    /// The snowflake belonging to this user.
    pub id: Snowflake<UserKind>,
    /// The user's username. This is unique to the user.
    pub username: String,
    /// The user's display name, if they set one.
    pub display_name: Option<String>,
    /// The last presence used by this user. This does not represent
    /// the user's actual presence, as that also depends on the
    /// gateway connection.
    pub last_presence: Presence,
    /// Set only when the user is sent inside a `GUILD_CREATE`
    /// payload; this is the presence shown to peers.
    pub displayed_presence: Option<Presence>,
}

impl View for User {
    type V = UserView;

    open spec fn view(&self) -> UserView {
        UserView {
            id: self.id.value,
            username: self.username@,
            display_name: match self.display_name {
                Some(ref n) => Some(n@),
                None => None,
            },
            last_presence: self.last_presence,
            displayed_presence: self.displayed_presence,
        }
    }
}

impl User {
    /// The snowflake belonging to this user.
    pub fn id(&self) -> (r: Snowflake<UserKind>)
        ensures
            r == self.id,
    {
        self.id
    }

    /// The user's username.
    pub fn username(&self) -> (r: &String)
        ensures
            r == &self.username,
    {
        &self.username
    }

    /// The last known presence of the user.
    pub fn last_presence(&self) -> (r: &Presence)
        ensures
            r == &self.last_presence,
    {
        &self.last_presence
    }

    /// Creates a new user from a create-user payload and a freshly
    /// generated ID, rejecting usernames outside the grammar or the
    /// accepted length.
    pub fn from_payload(id: Snowflake<UserKind>, payload: &CreateUser) -> (r: Result<
        Self,
        BuilderError,
    >)
        ensures
            username_accepted(encode_utf8(payload.username@)) ==> (r matches Ok(u) && u.id == id
                && u.username == payload.username && u.display_name is None && u.last_presence
                == Presence::Online && u.displayed_presence is None),
            !username_accepted(encode_utf8(payload.username@)) ==> (r matches Err(e)
                && e is ValidationError),
    {
        match Self::validate_username(payload.username.as_str()) {
            Ok(()) => Ok(User {
                id,
                username: payload.username.clone(),
                display_name: None,
                last_presence: Presence::Online,
                displayed_presence: None,
            }),
            Err(e) => Err(e),
        }
    }

    /// Build a user object directly from a database record.
    pub fn from_record(id: Snowflake<UserKind>, record: UserRecord) -> (r: Self)
        ensures
            r.id == id,
            r.username == record.username,
            r.display_name == record.display_name,
            r.last_presence == Presence::spec_from_code(record.last_presence),
            r.displayed_presence is None,
    {
        User {
            id,
            username: record.username,
            display_name: record.display_name,
            last_presence: Presence::from_code(record.last_presence),
            displayed_presence: None,
        }
    }

    /// The presence peers should see: the last chosen presence while
    /// the user has a live gateway connection, offline otherwise.
    pub open spec fn spec_displayed_presence(&self, gateway: crate::registry::Gateway) -> Presence {
        if gateway.contains_user(self.id.value) {
            self.last_presence
        } else {
            Presence::Offline
        }
    }

    /// Retrieve the user's displayed presence.
    pub fn presence(&self, gateway: &crate::registry::Gateway) -> (r: Presence)
        ensures
            r == self.spec_displayed_presence(*gateway),
    {
        if gateway.is_connected(self.id) {
            self.last_presence
        } else {
            Presence::Offline
        }
    }

    /// Transform this object to also include the user's displayed
    /// presence, as sent inside guild payloads.
    pub fn include_presence(self, gateway: &crate::registry::Gateway) -> (r: Self)
        ensures
            r == (User {
                displayed_presence: Some(self.spec_displayed_presence(*gateway)),
                ..self
            }),
    {
        let presence = self.presence(gateway);
        User { displayed_presence: Some(presence), ..self }
    }

    /// Validates and sets a new username for this user. The username
    /// must be committed to the database for the change to take
    /// effect.
    pub fn set_username(&mut self, username: String) -> (r: Result<(), BuilderError>)
        ensures
            username_accepted(encode_utf8(username@)) ==> r is Ok && *final(self) == (User {
                username,
                ..*old(self)
            }),
            !username_accepted(encode_utf8(username@)) ==> (r matches Err(e)
                && e is ValidationError && *final(self) == *old(self)),
    {
        match Self::validate_username(username.as_str()) {
            Ok(()) => {
                self.username = username;
                Ok(())
            },
            Err(e) => Err(e),
        }
    }

    /// Checks a username against the grammar and the accepted length,
    /// in that order.
    pub fn validate_username(username: &str) -> (r: Result<(), BuilderError>)
        ensures
            r is Ok <==> username_accepted(username.spec_bytes()),
            r matches Err(e) ==> e is ValidationError,
    {
        if !Self::matches_username_grammar(username.as_bytes()) {
            return Err(
                BuilderError::ValidationError(
                    "Invalid username, must match regex: ^([a-zA-Z0-9]|[a-zA-Z0-9][a-zA-Z0-9]*(?:[._][a-zA-Z0-9]+)*[a-zA-Z0-9])$".to_owned(),
                ),
            );
        }
        let len = username.as_bytes().len();
        if len > 32 || len < 3 {
            return Err(
                BuilderError::ValidationError(
                    "Invalid username, must be between 3 and 32 characters long".to_owned(),
                ),
            );
        }
        Ok(())
    }

    fn matches_username_grammar(s: &[u8]) -> (r: bool)
        ensures
            r == username_matches(s@),
    {
        let n = s.len();
        if n == 0 {
            return false;
        }
        if n == 1 {
            return byte_is_alnum(s[0]);
        }
        if !byte_is_alnum(s[0]) || !byte_is_alnum(s[n - 1]) || !byte_is_alnum(s[n - 2]) {
            return false;
        }
        let mut i: usize = 0;
        while i < n
            invariant
                n == s@.len(),
                2 <= n,
                0 <= i <= n,
                forall|j: int| 0 <= j < i ==> is_alnum_byte(#[trigger] s@[j]) || is_sep_byte(s@[j]),
                forall|j: int|
                    0 <= j < i && is_sep_byte(#[trigger] s@[j]) ==> j + 1 < n && is_alnum_byte(
                        s@[j + 1],
                    ),
            decreases n - i,
        {
            if !byte_is_alnum(s[i]) && !byte_is_sep(s[i]) {
                return false;
            }
            if byte_is_sep(s[i]) {
                if i + 1 >= n || !byte_is_alnum(s[i + 1]) {
                    return false;
                }
            }
            i += 1;
        }
        true
    }
}

} // verus!
