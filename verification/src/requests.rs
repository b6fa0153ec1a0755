use crate::prefs::Layout;
use crate::prefs::PrefFlags;
use vstd::prelude::*;

verus! {

/// A request to create a new user.
#[derive(Debug, Clone)]
pub struct CreateUser {
    pub username: String,
    pub password: String,
}

/// The JSON part of a request to create a message.
#[derive(Debug, Clone)]
pub struct CreateMessage {
    pub content: Option<String>,
    pub nonce: Option<String>,
}

/// A request to create a new guild.
#[derive(Debug, Clone)]
pub struct CreateGuild {
    pub name: String,
}

/// A request to create a new channel.
#[derive(Debug, Clone)]
pub enum CreateChannel {
    GuildText { name: String },
}

/// A request to update a user's profile.
#[derive(Debug, Clone)]
pub struct UpdateUser {
    pub display_name: Option<String>,
}

/// Update payload for user preferences.
#[derive(Debug, Clone)]
pub struct UpdatePrefs {
    pub flags: Option<PrefFlags>,
    pub message_grouping_timeout: Option<u64>,
    pub layout: Option<Layout>,
    pub text_size: Option<u8>,
    pub locale: Option<String>,
}

} // verus!
