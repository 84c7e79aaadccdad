use auth_service::data_stores::BannedTokenStore;
use auth_service::email::Email;
use auth_service::error::AuthAPIError;
use auth_service::hashset_banned_token_store::HashsetBannedTokenStore;
use auth_service::auth::generate_auth_token;
use auth_service::logout::logout;
use auth_service::verify_token::{verify_token, VerifyTokenRequest};

const SECRET: &str = "test_jwt_secret";

fn fresh_token(email: &str) -> String {
    generate_auth_token(&Email::parse(email).unwrap(), SECRET).unwrap()
}

#[test]
fn should_return_400_if_jwt_cookie_missing() {
    let mut store = HashsetBannedTokenStore::default();
    let outcome = logout(&mut store, None, SECRET);
    assert!(matches!(outcome, Err(AuthAPIError::MissingToken)));
}

#[test]
fn logout_should_return_401_if_invalid_token() {
    let mut store = HashsetBannedTokenStore::default();
    let outcome = logout(&mut store, Some("invalid"), SECRET);
    assert!(matches!(outcome, Err(AuthAPIError::InvalidToken)));
    // nothing was revoked along the way
    assert!(!store.is_banned("invalid"));
}

#[test]
fn should_return_200_if_valid_jwt_cookie() {
    let mut store = HashsetBannedTokenStore::default();
    let token = fresh_token("test@email.com");
    assert_eq!(Ok(()), logout(&mut store, Some(&token), SECRET));
    assert!(store.is_banned(&token));
}

#[test]
fn logout_called_twice_in_a_row_rejects_the_second_call() {
    let mut store = HashsetBannedTokenStore::default();
    let token = fresh_token("test@email.com");
    assert_eq!(Ok(()), logout(&mut store, Some(&token), SECRET));
    // the token is revoked now, so presenting it again is rejected
    let second = logout(&mut store, Some(&token), SECRET);
    assert!(matches!(second, Err(AuthAPIError::InvalidToken)));
    assert!(store.is_banned(&token));
}

#[test]
fn should_return_200_valid_token() {
    let store = HashsetBannedTokenStore::default();
    let token = fresh_token("test@email.com");
    let outcome = verify_token(&store, &VerifyTokenRequest { token }, SECRET);
    assert_eq!(Ok(()), outcome);
}

#[test]
fn verify_token_should_return_401_if_invalid_token() {
    let store = HashsetBannedTokenStore::default();
    let outcome = verify_token(
        &store,
        &VerifyTokenRequest {
            token: "invalid token".to_owned(),
        },
        SECRET,
    );
    assert!(matches!(outcome, Err(AuthAPIError::InvalidToken)));
}

#[test]
fn should_return_401_if_banned_token() {
    let mut store = HashsetBannedTokenStore::default();
    let token = fresh_token("test@email.com");
    assert_eq!(
        Ok(()),
        verify_token(
            &store,
            &VerifyTokenRequest {
                token: token.clone(),
            },
            SECRET,
        )
    );
    assert_eq!(Ok(()), logout(&mut store, Some(&token), SECRET));
    let outcome = verify_token(&store, &VerifyTokenRequest { token }, SECRET);
    assert!(matches!(outcome, Err(AuthAPIError::InvalidToken)));
}
