use crate::user::User;
use vstd::prelude::*;

verus! {

/// A request to create a new user.
#[derive(Debug, Clone)]
pub struct CreateUser {
    pub username: String,
}

/// A response to a request to create a new user.
#[derive(Debug, Clone)]
pub struct CreateUserResponse {
    /// The created user.
    pub user: User,
    /// The login token for the created user.
    pub token: String,
}

impl CreateUserResponse {
    /// Assemble the response from the created user and their token.
    pub fn new(user: User, token: String) -> (r: Self)
        ensures
            r.user == user,
            r.token == token,
    {
        CreateUserResponse { user, token }
    }
}

/// A request to create a new message. A message object is returned
/// on success.
#[derive(Debug, Clone)]
pub struct CreateMessage {
    pub content: String,
    pub nonce: Option<String>,
}

impl CreateMessage {
    /// Create a new request with the given content and client nonce.
    pub fn new(content: String, nonce: Option<String>) -> (r: Self)
        ensures
            r.content == content,
            r.nonce == nonce,
    {
        CreateMessage { content, nonce }
    }

    /// The requested message content.
    pub fn content(&self) -> (r: &str)
        ensures
            r@ == self.content@,
    {
        self.content.as_str()
    }

    /// The client's nonce, if it sent one.
    pub fn nonce(&self) -> (r: &Option<String>)
        ensures
            r == &self.nonce,
    {
        &self.nonce
    }
}

/// A request to create a new guild.
#[derive(Debug, Clone)]
pub struct CreateGuild {
    pub name: String,
}

/// A request to create a new channel.
#[derive(Debug, Clone)]
pub enum CreateChannel {
    GuildText { name: String },
}

} // verus!
