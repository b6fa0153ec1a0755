use vstd::prelude::*;

verus! {

/// JSON-serializable API error.
#[derive(Debug, Clone)]
pub struct ErrorMessage {
    pub code: u16,
    pub message: String,
    pub description: Option<String>,
}

impl ErrorMessage {
    /// Create a new error body with the given code and texts.
    pub fn new(code: u16, message: String, description: Option<String>) -> (r: Self)
        ensures
            r.code == code,
            r.message == message,
            r.description == description,
    {
        ErrorMessage { code, message, description }
    }
}

/// A rejection raised when the requested entity does not exist.
#[derive(Debug, Clone)]
pub struct NotFound {
    pub message: String,
}

impl NotFound {
    /// Create a new rejection with the given message.
    pub fn new(message: &str) -> (r: Self)
        ensures
            r.message@ == message@,
    {
        NotFound { message: message.to_owned() }
    }
}

/// A rejection raised when an invalid token or invalid credentials
/// are provided. The header field carries the `WWW-Authenticate`
/// challenge.
#[derive(Debug, Clone)]
pub struct Unauthorized {
    pub message: String,
    pub header: String,
}

impl Unauthorized {
    /// Create a new rejection with a custom message, authentication
    /// scheme and realm; scheme and realm make up the
    /// `WWW-Authenticate` header value.
    pub fn new(message: &str, scheme: &str, realm: &str) -> (r: Self)
        ensures
            r.message@ == message@,
            r.header@ == scheme@ + " realm=\""@ + realm@ + "\""@,
    {
        let mut header = scheme.to_owned();
        header.append(" realm=\"");
        header.append(realm);
        header.append("\"");
        Unauthorized { message: message.to_owned(), header }
    }

    /// A rejection for a missing or invalid bearer token.
    pub fn bearer(realm: &str) -> (r: Self)
        ensures
            r.message@ == "Invalid token provided."@,
            r.header@ == "Bearer"@ + " realm=\""@ + realm@ + "\""@,
    {
        Unauthorized::new("Invalid token provided.", "Bearer", realm)
    }

    /// A rejection for missing or invalid basic credentials.
    pub fn basic(realm: &str) -> (r: Self)
        ensures
            r.message@ == "Invalid credentials provided."@,
            r.header@ == "Basic"@ + " realm=\""@ + realm@ + "\""@,
    {
        Unauthorized::new("Invalid credentials provided.", "Basic", realm)
    }
}

/// A rejection raised when the author of a request and the token
/// holder do not match.
#[derive(Debug, Clone)]
pub struct AuthorMismatch;

/// A rejection raised for any other server-side error.
#[derive(Debug, Clone)]
pub struct InternalServerError {
    pub message: String,
}

impl InternalServerError {
    /// Create a new rejection with the given message.
    pub fn new(message: &str) -> (r: Self)
        ensures
            r.message@ == message@,
    {
        InternalServerError { message: message.to_owned() }
    }

    /// A rejection with the stock database error message.
    pub fn db() -> (r: Self)
        ensures
            r.message@ == "A database transaction error occured."@,
    {
        InternalServerError { message: "A database transaction error occured.".to_owned() }
    }
}

/// A rejection raised when a request is malformed.
#[derive(Debug, Clone)]
pub struct BadRequest {
    pub message: String,
}

impl BadRequest {
    /// Create a new rejection with the given message.
    pub fn new(message: &str) -> (r: Self)
        ensures
            r.message@ == message@,
    {
        BadRequest { message: message.to_owned() }
    }
}

/// A rejection raised when a request is rate limited.
#[derive(Debug, Clone)]
pub struct RateLimited {
    pub message: String,
}

impl RateLimited {
    /// Create a new rejection with the given message.
    pub fn new(message: &str) -> (r: Self)
        ensures
            r.message@ == message@,
    {
        RateLimited { message: message.to_owned() }
    }
}

/// A rejection raised when a request is forbidden, for missing
/// privileges or a visibility restriction.
#[derive(Debug, Clone)]
pub struct Forbidden {
    pub message: String,
}

impl Forbidden {
    /// Create a new rejection with the given message.
    pub fn new(message: &str) -> (r: Self)
        ensures
            r.message@ == message@,
    {
        Forbidden { message: message.to_owned() }
    }
}

} // verus!
