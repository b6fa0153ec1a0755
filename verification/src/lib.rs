//! Core of a real-time chat gateway: the connection registry, the
//! handshake and heartbeat protocol, the per-connection pipeline and
//! the event-routing rule, together with the wire format they speak.
pub mod appstate;
pub mod attachment;
pub mod auth;
pub mod bucket;
pub mod channel;
pub mod close_code;
pub mod errors;
pub mod gateway_event;
pub mod guild;
pub mod handshake;
pub mod member;
pub mod message;
pub mod pipeline;
pub mod prefs;
pub mod registry;
pub mod rejections;
pub mod rest;
pub mod presence;
pub mod requests;
pub mod snowflake;
pub mod user;
pub mod wire;

pub use snowflake::Snowflake;
