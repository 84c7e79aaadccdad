//! Login: credential check, then either a regular session token or a fresh
//! two-factor challenge, stored and dispatched to the account holder.

use vstd::prelude::*;

use crate::auth::{generate_auth_token, token_for_subject};
use crate::data_stores::{
    directory_wf, uuid_parse_of, valid_two_fa_code, LoginAttemptId, TwoFACode, TwoFACodeStore,
    UserStore,
};
use crate::email::{valid_email, Email};
use crate::email_client::EmailClient;
use crate::error::AuthAPIError;
use crate::password::{valid_password, Password};
use crate::user::UserV;

verus! {

/// A login submission, as plain values.
pub struct LoginRequest {
    pub email: String,
    pub password: String,
}

/// What a successful login hands back: a session right away, or a pending
/// two-factor challenge.
#[derive(Debug)]
pub enum LoginResponse {
    RegularAuth,
    TwoFactorAuth(TwoFactorAuthResponse),
}

/// The challenge reference returned when a second factor is required.
#[derive(Debug)]
pub struct TwoFactorAuthResponse {
    pub message: String,
    pub login_attempt_id: String,
}

/// That the challenge table went from `before` to `after` by issuing one
/// fresh challenge for the account: only that account's entry changed, and
/// it now holds a six-digit code.
pub open spec fn challenge_issued(
    before: Map<Seq<char>, (Seq<char>, Seq<char>)>,
    after: Map<Seq<char>, (Seq<char>, Seq<char>)>,
    email: Seq<char>,
) -> bool {
    &&& after.contains_key(email)
    &&& after == before.insert(email, after[email])
    &&& valid_two_fa_code(after[email].1)
}

/// Whether the directory accepts the given credentials.
pub open spec fn login_accepts(
    directory: Map<Seq<char>, UserV>,
    email: Seq<char>,
    password: Seq<char>,
) -> bool {
    directory.contains_key(email) && directory[email].password == password
}

/// For every valid email and password, registering an account under them
/// makes a login with the same credentials acceptable: signup followed
/// immediately by login succeeds.
pub proof fn lemma_signup_then_login_accepts(
    directory: Map<Seq<char>, UserV>,
    email: Seq<char>,
    password: Seq<char>,
    requires_2fa: bool,
)
    requires
        valid_email(email),
        valid_password(password),
    ensures
        login_accepts(
            crate::signup::signup_register(directory, email, password, requires_2fa),
            email,
            password,
        ),
{
}

/// Checks the submitted credentials against the directory and either issues
/// a session token (no second factor required; the challenge store is left
/// untouched) or stores and dispatches a fresh challenge. On success the
/// first component carries the session token, when one was issued.
pub fn login<U: UserStore, T: TwoFACodeStore, E: EmailClient>(
    user_store: &U,
    two_fa_code_store: &mut T,
    email_client: &E,
    request: LoginRequest,
    secret: &str,
) -> (r: Result<(Option<String>, LoginResponse), AuthAPIError>)
    requires
        directory_wf(user_store.contents()),
    ensures
        ({
            let directory = user_store.contents();
            let before = old(two_fa_code_store).contents();
            let after = final(two_fa_code_store).contents();
            let email = request.email@;
            let password = request.password@;
            &&& (!valid_email(email) || !valid_password(password)) ==> (r matches Err(e)
                && e == AuthAPIError::InvalidCredentials
                && after == before)
            &&& (valid_email(email) && valid_password(password) && !login_accepts(
                directory,
                email,
                password,
            )) ==> (r matches Err(e) && e == AuthAPIError::IncorrectCredentials && after == before)
            &&& (valid_email(email) && valid_password(password) && login_accepts(
                directory,
                email,
                password,
            ) && !directory[email].requires_2fa) ==> (after == before && ((r matches Ok(p)
                && (p.0 matches Some(t)
                && (p.1 matches LoginResponse::RegularAuth
                && token_for_subject(t@, secret@, email)))) || (r matches Err(e)
                && e == AuthAPIError::UnexpectedError)))
            &&& (valid_email(email) && valid_password(password) && login_accepts(
                directory,
                email,
                password,
            ) && directory[email].requires_2fa) ==> ({
                &&& (r matches Ok(p) ==> (challenge_issued(before, after, email) && p.0 is None
                    && (p.1 matches LoginResponse::TwoFactorAuth(resp)
                    && resp.message@ == "2FA required"@
                    && resp.login_attempt_id@ == after[email].0
                    && uuid_parse_of(resp.login_attempt_id@) == Some(resp.login_attempt_id@))))
                &&& (r matches Err(e) ==> (e == AuthAPIError::UnexpectedError && (after == before
                    || challenge_issued(before, after, email))))
            })
        }),
{
    let email = match Email::parse(request.email.as_str()) {
        Ok(e) => e,
        Err(_) => {
            return Err(AuthAPIError::InvalidCredentials);
        },
    };
    let password = match Password::parse(request.password) {
        Ok(p) => p,
        Err(_) => {
            return Err(AuthAPIError::InvalidCredentials);
        },
    };

    match user_store.validate_user(email.clone(), password) {
        Ok(()) => (),
        Err(_) => {
            return Err(AuthAPIError::IncorrectCredentials);
        },
    }

    let user = match user_store.get_user(email) {
        Ok(u) => u,
        Err(_) => {
            return Err(AuthAPIError::UnexpectedError);
        },
    };

    if user.requires_2fa() {
        handle_2fa(user.email(), two_fa_code_store, email_client)
    } else {
        handle_no_2fa(user.email(), secret)
    }
}

/// Issues a fresh challenge for the account, stores it (replacing any pending
/// one) and dispatches the code to the account holder. When storing fails
/// nothing is kept; when only dispatch fails the challenge is still stored;
/// either failure makes that login attempt an unexpected error.
fn handle_2fa<T: TwoFACodeStore, E: EmailClient>(
    email: &Email,
    two_fa_code_store: &mut T,
    email_client: &E,
) -> (r: Result<(Option<String>, LoginResponse), AuthAPIError>)
    ensures
        ({
            let before = old(two_fa_code_store).contents();
            let after = final(two_fa_code_store).contents();
            &&& (r matches Ok(p) ==> (challenge_issued(before, after, email@) && p.0 is None
                && (p.1 matches LoginResponse::TwoFactorAuth(resp)
                && resp.message@ == "2FA required"@
                && resp.login_attempt_id@ == after[email@].0
                && uuid_parse_of(resp.login_attempt_id@) == Some(resp.login_attempt_id@))))
            &&& (r matches Err(e) ==> (e == AuthAPIError::UnexpectedError && (after == before
                || challenge_issued(before, after, email@))))
        }),
{
    let login_attempt_id = LoginAttemptId::default();
    let two_fa_code = TwoFACode::default();

    match two_fa_code_store.add_code(email.clone(), login_attempt_id.clone(), two_fa_code.clone()) {
        Ok(()) => (),
        Err(_) => {
            return Err(AuthAPIError::UnexpectedError);
        },
    }

    match email_client.send_email(email, "Auth Service: 2FA code", two_fa_code.as_ref()) {
        Ok(()) => (),
        Err(_) => {
            return Err(AuthAPIError::UnexpectedError);
        },
    }

    let response = TwoFactorAuthResponse {
        message: "2FA required".to_owned(),
        login_attempt_id: login_attempt_id.as_ref().to_owned(),
    };
    Ok((None, LoginResponse::TwoFactorAuth(response)))
}

/// Issues a regular session token for the account.
fn handle_no_2fa(email: &Email, secret: &str) -> (r: Result<
    (Option<String>, LoginResponse),
    AuthAPIError,
>)
    ensures
        (r matches Ok(p) ==> (p.0 matches Some(t) && (p.1 matches LoginResponse::RegularAuth
            && token_for_subject(t@, secret@, email@)))),
        (r matches Err(e) ==> e == AuthAPIError::UnexpectedError),
{
    match generate_auth_token(email, secret) {
        Ok(token) => Ok((Some(token), LoginResponse::RegularAuth)),
        Err(e) => Err(e),
    }
}

} // verus!
