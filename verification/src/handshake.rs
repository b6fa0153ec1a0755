use crate::close_code::GatewayCloseCode;
use crate::gateway_event::GatewayMessage;
use crate::snowflake::GuildKind;
use crate::snowflake::Snowflake;
use crate::snowflake::UserKind;
use crate::user::User;
use crate::wire::spec_parse_client_frame;
use crate::wire::ClientFrameView;
use vstd::prelude::*;
use vstd::utf8::encode_utf8;

verus! {

/// Where the handshake stands. The machine starts in `Start`, where
/// the driver sends the HELLO frame, and ends in exactly one of
/// `Registered` or `Closed`.
#[derive(Debug)]
pub enum HandshakeState {
    /// HELLO is being sent.
    Start,
    /// HELLO went out; the first inbound frame is awaited.
    AwaitIdentify,
    /// An IDENTIFY arrived; its token is with the validator.
    AwaitToken,
    /// The token named a user; the user record is being loaded.
    AwaitUser,
    /// The user exists; their guild memberships are being loaded.
    AwaitGuilds { user: User },
    /// The handshake succeeded: install the handle and spawn the
    /// pipeline.
    Registered { user: User, guild_ids: Vec<Snowflake<GuildKind>> },
    /// The handshake failed: send one close frame and stop.
    Closed { code: GatewayCloseCode, reason: String },
}

/// What the outside world reports back to the machine.
pub enum HandshakeInput {
    /// Whether the HELLO frame could be written.
    HelloSent { ok: bool },
    /// The socket yielded no frame: a read error or an early close.
    NoFrame,
    /// The first frame was not a text frame.
    NonTextFrame,
    /// The first frame's text.
    TextFrame(String),
    /// The validator accepted the token and named its user.
    TokenValid { user_id: Snowflake<UserKind> },
    /// The validator rejected the token.
    TokenInvalid,
    /// The user record was found.
    UserFound(User),
    /// No user record exists for the token's user.
    UserMissing,
    /// The membership store answered.
    GuildsLoaded(Vec<Snowflake<GuildKind>>),
    /// A store failed while the handshake was under way.
    StoreError,
}

/// What the driver must do after a step.
pub enum HandshakeEffect {
    /// Wait for the first inbound frame.
    AwaitFrame,
    /// Hand this token to the validator.
    ValidateToken(String),
    /// Load this user from the user store.
    LoadUser(Snowflake<UserKind>),
    /// Load this user's guild memberships.
    LoadGuilds(Snowflake<UserKind>),
    /// The machine reached a terminal state; act on it.
    Settle,
}

impl HandshakeState {
    /// Whether the handshake has ended.
    pub open spec fn is_terminal(self) -> bool {
        self is Registered || self is Closed
    }

    /// Which inputs a state can be answered with; the driver keeps
    /// to this by construction.
    pub open spec fn accepts(self, input: HandshakeInput) -> bool {
        match self {
            HandshakeState::Start => input is HelloSent,
            HandshakeState::AwaitIdentify => input is NoFrame || input is NonTextFrame
                || input is TextFrame,
            HandshakeState::AwaitToken => input is TokenValid || input is TokenInvalid
                || input is StoreError,
            HandshakeState::AwaitUser => input is UserFound || input is UserMissing
                || input is StoreError,
            HandshakeState::AwaitGuilds { .. } => input is GuildsLoaded || input is StoreError,
            HandshakeState::Registered { .. } => false,
            HandshakeState::Closed { .. } => false,
        }
    }
}

/// Drive the handshake one step. The machine either moves to the
/// next waiting state or settles, once and for all, in exactly one
/// terminal state: a successful registration, or a single close
/// whose code is `1007`, `1008` or `1011`.
pub fn handshake_step(state: HandshakeState, input: HandshakeInput) -> (r: (
    HandshakeState,
    HandshakeEffect,
))
    requires
        state.accepts(input),
    ensures
        r.0 matches HandshakeState::Closed { code, .. } ==> (code
            == GatewayCloseCode::InvalidPayload || code == GatewayCloseCode::PolicyViolation
            || code == GatewayCloseCode::ServerError),
        r.0.is_terminal() <==> r.1 is Settle,
        state matches HandshakeState::Start ==> (input matches HandshakeInput::HelloSent { ok }
            && if ok {
            r.0 is AwaitIdentify && r.1 is AwaitFrame
        } else {
            (r.0 matches HandshakeState::Closed { code, .. } && code
                == GatewayCloseCode::ServerError)
        }),
        state is AwaitIdentify && input is NoFrame ==> (r.0 matches HandshakeState::Closed {
            code,
            reason,
        } && code == GatewayCloseCode::PolicyViolation && reason@ == "IDENTIFY expected"@),
        state is AwaitIdentify && input is NonTextFrame ==> (r.0 matches HandshakeState::Closed {
            code,
            reason,
        } && code == GatewayCloseCode::InvalidPayload && reason@ == "Invalid IDENTITY payload"@),
        state is AwaitIdentify ==> (input matches HandshakeInput::TextFrame(t) ==> match
            spec_parse_client_frame(encode_utf8(t@)) {
            Some(ClientFrameView::Identify { token }) => (r.1
                matches HandshakeEffect::ValidateToken(tk) && r.0 is AwaitToken && tk@
                == token.map_values(|b: u8| b as char)),
            _ => (r.0 matches HandshakeState::Closed { code, reason } && code
                == GatewayCloseCode::InvalidPayload && reason@ == "Invalid IDENTITY payload"@),
        }),
        state is AwaitToken && input is TokenInvalid ==> (r.0 matches HandshakeState::Closed {
            code,
            reason,
        } && code == GatewayCloseCode::PolicyViolation && reason@ == "Invalid token"@),
        state is AwaitToken ==> (input matches HandshakeInput::TokenValid { user_id } ==> (r.0
            is AwaitUser && r.1 == HandshakeEffect::LoadUser(user_id))),
        state is AwaitUser && input is UserMissing ==> (r.0 matches HandshakeState::Closed {
            code,
            reason,
        } && code == GatewayCloseCode::PolicyViolation && reason@ == "User not found"@),
        state is AwaitUser ==> (input matches HandshakeInput::UserFound(user) ==> (r.0
            matches HandshakeState::AwaitGuilds { user: u } && u == user && r.1
            == HandshakeEffect::LoadGuilds(user.id))),
        state matches HandshakeState::AwaitGuilds { user } ==> (input
            matches HandshakeInput::GuildsLoaded(gids) ==> (r.0
            matches HandshakeState::Registered { user: u, guild_ids } && u == user && guild_ids
            == gids)),
        (!(state is Start) && input is StoreError) ==> (r.0 matches HandshakeState::Closed {
            code,
            ..
        } && code == GatewayCloseCode::ServerError),
{
    match (state, input) {
        (HandshakeState::Start, HandshakeInput::HelloSent { ok }) => {
            if ok {
                (HandshakeState::AwaitIdentify, HandshakeEffect::AwaitFrame)
            } else {
                (
                    HandshakeState::Closed {
                        code: GatewayCloseCode::ServerError,
                        reason: "Failed to send HELLO".to_owned(),
                    },
                    HandshakeEffect::Settle,
                )
            }
        },
        (HandshakeState::AwaitIdentify, HandshakeInput::NoFrame) => (
            HandshakeState::Closed {
                code: GatewayCloseCode::PolicyViolation,
                reason: "IDENTIFY expected".to_owned(),
            },
            HandshakeEffect::Settle,
        ),
        (HandshakeState::AwaitIdentify, HandshakeInput::NonTextFrame) => (
            HandshakeState::Closed {
                code: GatewayCloseCode::InvalidPayload,
                reason: "Invalid IDENTITY payload".to_owned(),
            },
            HandshakeEffect::Settle,
        ),
        (HandshakeState::AwaitIdentify, HandshakeInput::TextFrame(t)) => {
            match crate::wire::parse_client_message(t.as_str()) {
                Some(GatewayMessage::Identify(p)) => (
                    HandshakeState::AwaitToken,
                    HandshakeEffect::ValidateToken(p.token),
                ),
                _ => (
                    HandshakeState::Closed {
                        code: GatewayCloseCode::InvalidPayload,
                        reason: "Invalid IDENTITY payload".to_owned(),
                    },
                    HandshakeEffect::Settle,
                ),
            }
        },
        (HandshakeState::AwaitToken, HandshakeInput::TokenValid { user_id }) => (
            HandshakeState::AwaitUser,
            HandshakeEffect::LoadUser(user_id),
        ),
        (HandshakeState::AwaitToken, HandshakeInput::TokenInvalid) => (
            HandshakeState::Closed {
                code: GatewayCloseCode::PolicyViolation,
                reason: "Invalid token".to_owned(),
            },
            HandshakeEffect::Settle,
        ),
        (HandshakeState::AwaitUser, HandshakeInput::UserFound(user)) => {
            let id = user.id;
            (HandshakeState::AwaitGuilds { user }, HandshakeEffect::LoadGuilds(id))
        },
        (HandshakeState::AwaitUser, HandshakeInput::UserMissing) => (
            HandshakeState::Closed {
                code: GatewayCloseCode::PolicyViolation,
                reason: "User not found".to_owned(),
            },
            HandshakeEffect::Settle,
        ),
        (HandshakeState::AwaitGuilds { user }, HandshakeInput::GuildsLoaded(gids)) => (
            HandshakeState::Registered { user, guild_ids: gids },
            HandshakeEffect::Settle,
        ),
        (_, HandshakeInput::StoreError) => (
            HandshakeState::Closed {
                code: GatewayCloseCode::ServerError,
                reason: "Internal error during handshake".to_owned(),
            },
            HandshakeEffect::Settle,
        ),
        _ => unreached(),
    }
}

/// A settled handshake stays settled: a terminal state accepts no
/// further input, so the machine ends in at most one outcome.
pub proof fn lemma_settled_accepts_no_input(state: HandshakeState, input: HandshakeInput)
    requires
        state.is_terminal(),
    ensures
        !state.accepts(input),
{
}

} // verus!
