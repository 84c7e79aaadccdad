use auth_service::data_stores::{LoginAttemptId, TwoFACodeStore, TwoFACodeStoreError};
use auth_service::email::Email;
use auth_service::email_client::MockEmailClient;
use auth_service::error::AuthAPIError;
use auth_service::hashmap_two_fa_code_store::HashmapTwoFACodeStore;
use auth_service::hashmap_user_store::HashmapUserStore;
use auth_service::login::{login, LoginRequest, LoginResponse};
use auth_service::signup::{signup, SignupRequest};

const SECRET: &str = "test_jwt_secret";

fn signup_request(email: &str, password: &str, requires_2fa: bool) -> SignupRequest {
    SignupRequest {
        email: email.to_owned(),
        password: password.to_owned(),
        requires_2fa,
    }
}

fn login_request(email: &str, password: &str) -> LoginRequest {
    LoginRequest {
        email: email.to_owned(),
        password: password.to_owned(),
    }
}

#[test]
fn signup_rejects_invalid_input() {
    let mut user_store = HashmapUserStore::default();
    assert!(matches!(
        signup(&mut user_store, signup_request("invalidemail", "password123", false)),
        Err(AuthAPIError::InvalidCredentials)
    ));
    assert!(matches!(
        signup(&mut user_store, signup_request("a@b.com", "pwd", false)),
        Err(AuthAPIError::InvalidCredentials)
    ));
}

#[test]
fn signup_duplicate_email_returns_already_exists() {
    let mut user_store = HashmapUserStore::default();
    assert!(signup(&mut user_store, signup_request("a@b.com", "password1", false)).is_ok());
    // a duplicate always comes back as already existing, never unexpected
    assert!(matches!(
        signup(&mut user_store, signup_request("a@b.com", "password1", false)),
        Err(AuthAPIError::UserAlreadyExists)
    ));
    assert!(matches!(
        signup(&mut user_store, signup_request("a@b.com", "otherpassword", true)),
        Err(AuthAPIError::UserAlreadyExists)
    ));
}

#[test]
fn login_should_return_400_if_invalid_input() {
    let user_store = HashmapUserStore::default();
    let mut two_fa_code_store = HashmapTwoFACodeStore::default();
    let outcome = login(
        &user_store,
        &mut two_fa_code_store,
        &MockEmailClient,
        login_request("invalidemail", "pwd"),
        SECRET,
    );
    assert!(matches!(outcome, Err(AuthAPIError::InvalidCredentials)));
}

#[test]
fn login_should_return_401_if_incorrect_credentials() {
    let mut user_store = HashmapUserStore::default();
    let mut two_fa_code_store = HashmapTwoFACodeStore::default();
    signup(&mut user_store, signup_request("user@email.com", "right_password", false)).unwrap();
    let outcome = login(
        &user_store,
        &mut two_fa_code_store,
        &MockEmailClient,
        login_request("user@email.com", "definitely_wrong_password"),
        SECRET,
    );
    assert!(matches!(outcome, Err(AuthAPIError::IncorrectCredentials)));

    // an unknown account answers with the same signal as a wrong password
    let outcome = login(
        &user_store,
        &mut two_fa_code_store,
        &MockEmailClient,
        login_request("nobody@email.com", "right_password"),
        SECRET,
    );
    assert!(matches!(outcome, Err(AuthAPIError::IncorrectCredentials)));
}

#[test]
fn should_return_200_if_valid_credentials_and_2fa_disabled() {
    let mut user_store = HashmapUserStore::default();
    let mut two_fa_code_store = HashmapTwoFACodeStore::default();
    signup(&mut user_store, signup_request("a@b.com", "MySecretPwd", false)).unwrap();

    let (token, response) = login(
        &user_store,
        &mut two_fa_code_store,
        &MockEmailClient,
        login_request("a@b.com", "MySecretPwd"),
        SECRET,
    )
    .unwrap();
    assert!(matches!(response, LoginResponse::RegularAuth));
    let token = token.expect("No auth cookie found");
    assert!(!token.is_empty());
}

#[test]
fn should_return_206_if_valid_credentials_and_2fa_enabled() {
    let mut user_store = HashmapUserStore::default();
    let mut two_fa_code_store = HashmapTwoFACodeStore::default();
    signup(&mut user_store, signup_request("a@b.com", "MySecretPwd", true)).unwrap();

    let (token, response) = login(
        &user_store,
        &mut two_fa_code_store,
        &MockEmailClient,
        login_request("a@b.com", "MySecretPwd"),
        SECRET,
    )
    .unwrap();
    assert!(token.is_none());
    match response {
        LoginResponse::TwoFactorAuth(two_fa) => {
            assert_eq!(two_fa.message, "2FA required");
            // the returned attempt id is UUID-shaped and is the stored one
            assert!(LoginAttemptId::parse(two_fa.login_attempt_id.clone()).is_ok());
            let email = Email::parse("a@b.com").unwrap();
            let (stored_id, _stored_code) = two_fa_code_store.get_code(&email).unwrap();
            assert_eq!(two_fa.login_attempt_id, stored_id.as_ref());
        }
        LoginResponse::RegularAuth => panic!("expected a two-factor challenge"),
    }
}

#[test]
fn login_without_2fa_never_stores_a_challenge() {
    let mut user_store = HashmapUserStore::default();
    let mut two_fa_code_store = HashmapTwoFACodeStore::default();
    signup(&mut user_store, signup_request("a@b.com", "MySecretPwd", false)).unwrap();

    login(
        &user_store,
        &mut two_fa_code_store,
        &MockEmailClient,
        login_request("a@b.com", "MySecretPwd"),
        SECRET,
    )
    .unwrap();

    let email = Email::parse("a@b.com").unwrap();
    assert_eq!(
        two_fa_code_store.get_code(&email),
        Err(TwoFACodeStoreError::LoginAttemptIdNotFound)
    );
}

#[test]
fn signup_then_login_succeeds_with_same_credentials() {
    let mut user_store = HashmapUserStore::default();
    let mut two_fa_code_store = HashmapTwoFACodeStore::default();
    signup(&mut user_store, signup_request("fresh@account.org", "longenough", false)).unwrap();
    let outcome = login(
        &user_store,
        &mut two_fa_code_store,
        &MockEmailClient,
        login_request("fresh@account.org", "longenough"),
        SECRET,
    );
    assert!(outcome.is_ok());
}
