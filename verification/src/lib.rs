//! Credential verification and session-token lifecycle for an identity
//! service: account signup, login with an optional two-factor challenge,
//! token issue and validation, and token revocation on logout.

pub mod auth;
pub mod banned_token_key;
pub mod data_stores;
pub mod email;
pub mod email_client;
pub mod error;
pub mod grpc_server;
pub mod hashmap_two_fa_code_store;
pub mod hashmap_user_store;
pub mod hashset_banned_token_store;
pub mod login;
pub mod logout;
pub mod password;
pub mod password_hash;
pub mod signup;
pub mod two_fa_code_key;
pub mod user;
pub mod verify_2fa;
pub mod verify_token;

use vstd::prelude::*;

verus! {

/// Body of an error reply sent back to a caller.
pub struct ErrorResponse {
    pub error: String,
}

} // verus!
