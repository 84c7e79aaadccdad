//! The account entity: a validated email and password plus the two-factor
//! requirement flag, owned by the user directory.

use vstd::prelude::*;

use crate::data_stores::UserStoreError;
use crate::email::Email;
use crate::password::Password;

verus! {

/// Mathematical view of an account record.
pub struct UserV {
    pub email: Seq<char>,
    pub password: Seq<char>,
    pub requires_2fa: bool,
}

/// A registered account. Immutable after construction. Like its password it
/// has no debug form.
pub struct User {
    email: Email,
    password: Password,
    requires_2fa: bool,
}

impl View for User {
    type V = UserV;

    closed spec fn view(&self) -> UserV {
        UserV { email: self.email@, password: self.password@, requires_2fa: self.requires_2fa }
    }
}

impl Clone for User {
    /// A clone is the same account record.
    fn clone(&self) -> (r: Self)
        ensures
            r == *self,
    {
        User {
            email: self.email.clone(),
            password: self.password.clone(),
            requires_2fa: self.requires_2fa,
        }
    }
}

impl PartialEq for User {
    fn eq(&self, other: &User) -> (r: bool) {
        self.email == other.email && self.password == other.password && self.requires_2fa
            == other.requires_2fa
    }
}

impl vstd::std_specs::cmp::PartialEqSpecImpl for User {
    open spec fn obeys_eq_spec() -> bool {
        true
    }

    open spec fn eq_spec(&self, other: &User) -> bool {
        self@ == other@
    }
}

impl User {
    pub fn new(email: Email, password: Password, requires_2fa: bool) -> (r: Self)
        ensures
            r@ == (UserV { email: email@, password: password@, requires_2fa }),
    {
        User { email, password, requires_2fa }
    }

    pub fn email(&self) -> (r: &Email)
        ensures
            r@ == self@.email,
    {
        &self.email
    }

    pub fn password(&self) -> (r: &Password)
        ensures
            r@ == self@.password,
    {
        &self.password
    }

    pub fn requires_2fa(&self) -> (r: bool)
        ensures
            r == self@.requires_2fa,
    {
        self.requires_2fa
    }

    /// Plaintext comparison used by the in-memory directory; the relational
    /// backend verifies against a stored hash instead.
    pub fn validate_password(&self, password: Password) -> (r: Result<(), UserStoreError>)
        ensures
            self@.password == password@ ==> r matches Ok(()),
            self@.password != password@ ==> (r matches Err(e)
                && e == UserStoreError::InvalidCredentials),
    {
        if self.password == password {
            Ok(())
        } else {
            Err(UserStoreError::InvalidCredentials)
        }
    }
}

/// One row of the relational user table, as plain values.
#[derive(Debug)]
pub struct PgUser {
    pub email: String,
    pub password_hash: String,
    pub requires_2fa: bool,
}

} // verus!
