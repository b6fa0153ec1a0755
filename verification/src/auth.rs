use crate::snowflake::Snowflake;
use crate::snowflake::UserKind;
use jsonwebtoken::errors::ErrorKind;
use jsonwebtoken::decode;
use jsonwebtoken::encode;
use jsonwebtoken::DecodingKey;
use jsonwebtoken::EncodingKey;
use jsonwebtoken::Header;
use jsonwebtoken::Validation;
use serde_json::Value;
use vstd::prelude::*;
use vstd::string::StringSliceAdditionalSpecFns;

verus! {

/// Why a token could not be minted or accepted.
#[derive(Debug, Clone, Copy, PartialEq, Eq, Structural)]
pub enum AuthError {
    /// The token's signature does not match the secret.
    InvalidSignature,
    /// The token is past its expiry.
    ExpiredSignature,
    /// The token is malformed or carries the wrong claims.
    InvalidToken,
    /// The token could not be created.
    TokenCreation,
}

impl AuthError {
    /// A short rendering of the error.
    pub fn message(&self) -> (r: String)
        ensures
            *self == AuthError::InvalidSignature ==> r@ == "InvalidSignature"@,
            *self == AuthError::ExpiredSignature ==> r@ == "ExpiredSignature"@,
            *self == AuthError::InvalidToken ==> r@ == "InvalidToken"@,
            *self == AuthError::TokenCreation ==> r@ == "Token creation failed"@,
    {
        match self {
            AuthError::InvalidSignature => "InvalidSignature".to_owned(),
            AuthError::ExpiredSignature => "ExpiredSignature".to_owned(),
            AuthError::InvalidToken => "InvalidToken".to_owned(),
            AuthError::TokenCreation => "Token creation failed".to_owned(),
        }
    }
}

/// The signed HS256 token that carries these claims under this
/// secret. Minting is deterministic, so the result is a function of
/// the claims and the secret alone.
pub uninterp spec fn jwt_token_of(user_id: u64, iat: u64, exp: u64, secret: Seq<u8>) -> Seq<char>;

/// The claims `(user_id, iat, exp)` a token yields under a secret,
/// or nothing when the token or its signature is invalid. Whether an
/// accepted token is also *fresh* additionally depends on the clock,
/// so freshness is deliberately not part of this name.
pub uninterp spec fn jwt_claims_of(token: Seq<char>, secret: Seq<u8>) -> Option<(u64, u64, u64)>;

/// Relies on `jsonwebtoken::encode`: an HS256 token is minted from
/// the claims and the secret alone, and `jsonwebtoken::decode` with
/// the same secret recovers exactly the claims that went in.
#[verifier::external_body]
fn jwt_encode(user_id: u64, iat: u64, exp: u64, secret: &str) -> (r: Result<String, AuthError>)
    ensures
        r matches Ok(s) ==> s@ == jwt_token_of(user_id, iat, exp, secret.spec_bytes()),
        r is Ok ==> jwt_claims_of(
            jwt_token_of(user_id, iat, exp, secret.spec_bytes()),
            secret.spec_bytes(),
        ) == Some((user_id, iat, exp)),
{
    let mut claims = serde_json::Map::new();
    claims.insert("user_id".to_owned(), Value::from(user_id));
    claims.insert("iat".to_owned(), Value::from(iat));
    claims.insert("exp".to_owned(), Value::from(exp));
    encode(&Header::default(), &claims, &EncodingKey::from_secret(secret.as_bytes())).map_err(
        |_| AuthError::TokenCreation,
    )
}

/// Relies on `jsonwebtoken::decode`: an accepted token's claims are a
/// function of the token and the secret; rejection tells a bad
/// signature and a stale expiry apart.
#[verifier::external_body]
fn jwt_decode(token: &str, secret: &str) -> (r: Result<(u64, u64, u64), AuthError>)
    ensures
        r matches Ok(c) ==> jwt_claims_of(token@, secret.spec_bytes()) == Some(c),
{
    let key = DecodingKey::from_secret(secret.as_bytes());
    let data = decode::<Value>(token, &key, &Validation::default()).map_err(|e| match e.kind() {
        ErrorKind::InvalidSignature => AuthError::InvalidSignature,
        ErrorKind::ExpiredSignature => AuthError::ExpiredSignature,
        _ => AuthError::InvalidToken,
    })?;
    let user_id = data.claims.get("user_id").and_then(Value::as_u64);
    let iat = data.claims.get("iat").and_then(Value::as_u64);
    let exp = data.claims.get("exp").and_then(Value::as_u64);
    match (user_id, iat, exp) {
        (Some(u), Some(i), Some(e)) => Ok((u, i, e)),
        _ => Err(AuthError::InvalidToken),
    }
}

/// Relies on chrono's `Utc::now`: the wall clock, which no contract
/// can pin down.
#[verifier::external_body]
fn now_unix_seconds() -> (r: i64) {
    chrono::Utc::now().timestamp()
}

/// The claims stored in an authentication token.
#[derive(Debug, Clone, Copy, PartialEq, Eq, Structural)]
pub struct TokenData {
    pub user_id: u64,
    /// The expiration time of the token in seconds.
    pub exp: u64,
    /// The time the token was issued, in seconds.
    pub iat: u64,
}

impl TokenData {
    /// Create a new set of claims for the given user and issue time;
    /// the token lives for one day from now.
    pub fn new(user_id: u64, iat: u64) -> (r: Self)
        ensures
            r.user_id == user_id,
            r.iat == iat,
            r.exp >= 86400,
    {
        let now = now_unix_seconds();
        let base: u64 = if now > 0 {
            now as u64
        } else {
            0
        };
        proof {
            assert(base <= i64::MAX as u64);
        }
        TokenData { user_id, iat, exp: base + 86400 }
    }

    /// Create a set of claims from stored parts.
    pub fn from_parts(user_id: u64, iat: u64, exp: u64) -> (r: Self)
        ensures
            r == (TokenData { user_id, iat, exp }),
    {
        TokenData { user_id, iat, exp }
    }

    /// The user id of the token.
    pub fn user_id(&self) -> (r: u64)
        ensures
            r == self.user_id,
    {
        self.user_id
    }

    /// The issue time of the token.
    pub fn iat(&self) -> (r: u64)
        ensures
            r == self.iat,
    {
        self.iat
    }

    /// The expiration time of the token.
    pub fn exp(&self) -> (r: u64)
        ensures
            r == self.exp,
    {
        self.exp
    }
}

/// A signed authentication token together with its claims.
#[derive(Debug, Clone)]
pub struct Token {
    /// The data stored in the token.
    pub data: TokenData,
    /// The token string.
    pub token: String,
}

impl Token {
    /// Mint a token carrying the given claims, signed with the secret.
    pub fn new(data: &TokenData, secret: &str) -> (r: Result<Self, AuthError>)
        ensures
            r matches Ok(t) ==> t.data == *data && t.token@ == jwt_token_of(
                data.user_id,
                data.iat,
                data.exp,
                secret.spec_bytes(),
            ) && jwt_claims_of(t.token@, secret.spec_bytes()) == Some(
                (data.user_id, data.iat, data.exp),
            ),
    {
        match jwt_encode(data.user_id, data.iat, data.exp, secret) {
            Ok(token) => Ok(Token { data: *data, token }),
            Err(e) => Err(e),
        }
    }

    /// Mint a token for the given user, issued now.
    pub fn new_for(user_id: Snowflake<UserKind>, secret: &str) -> (r: Result<Self, AuthError>)
        ensures
            r matches Ok(t) ==> t.data.user_id == user_id.value && jwt_claims_of(
                t.token@,
                secret.spec_bytes(),
            ) == Some((t.data.user_id, t.data.iat, t.data.exp)),
    {
        let now = now_unix_seconds();
        let iat: u64 = if now > 0 {
            now as u64
        } else {
            0
        };
        let data = TokenData::new(user_id.value, iat);
        Self::new(&data, secret)
    }

    /// Decode and validate an existing token: the claims are accepted
    /// exactly when the signature matches the secret and the token is
    /// fresh.
    pub fn decode(token: &str, secret: &str) -> (r: Result<Self, AuthError>)
        ensures
            r matches Ok(t) ==> jwt_claims_of(token@, secret.spec_bytes()) == Some(
                (t.data.user_id, t.data.iat, t.data.exp),
            ) && t.token@ == token@,
    {
        match jwt_decode(token, secret) {
            Ok((user_id, iat, exp)) => Ok(
                Token { data: TokenData { user_id, iat, exp }, token: token.to_owned() },
            ),
            Err(e) => Err(e),
        }
    }

    /// The claims stored in the token.
    pub fn data(&self) -> (r: &TokenData)
        ensures
            r == &self.data,
    {
        &self.data
    }

    /// The signed token string.
    pub fn token(&self) -> (r: &String)
        ensures
            r == &self.token,
    {
        &self.token
    }
}

} // verus!
