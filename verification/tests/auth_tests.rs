use chat_gateway::auth::Token;
use chat_gateway::auth::TokenData;

#[test]
fn test_decode_token() {
    let data = TokenData::from_parts(123, 123, chrono::Utc::now().timestamp() as u64 + 1000000);
    let token = Token::new(&data, "among us").unwrap();
    let decoded_token = Token::decode(token.token().as_str(), "among us").unwrap();
    assert_eq!(decoded_token.data().user_id(), 123);
    assert_eq!(decoded_token.data().iat(), 123);
}

#[test]
fn test_different_secret_fail() {
    let data = TokenData::from_parts(123, 123, chrono::Utc::now().timestamp() as u64 + 1000000);
    let token = Token::new(&data, "among us").unwrap();
    let err = Token::decode(token.token().as_str(), "sussage").unwrap_err();
    assert_eq!(err.message(), "InvalidSignature");
}

#[test]
fn expired_token_is_rejected() {
    let data = TokenData::from_parts(7, 1, 2);
    let token = Token::new(&data, "secret").unwrap();
    let err = Token::decode(token.token().as_str(), "secret").unwrap_err();
    assert_eq!(err.message(), "ExpiredSignature");
}

#[test]
fn garbage_token_is_rejected() {
    let err = Token::decode("deadbeef", "secret").unwrap_err();
    assert_eq!(err.message(), "InvalidToken");
}

#[test]
fn new_for_issues_token_for_user() {
    let id = chat_gateway::Snowflake::new(42);
    let token = Token::new_for(id, "secret").unwrap();
    assert_eq!(token.data().user_id(), 42);
    let decoded = Token::decode(token.token().as_str(), "secret").unwrap();
    assert_eq!(decoded.data().user_id(), 42);
}
