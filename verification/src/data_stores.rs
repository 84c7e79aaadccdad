//! The polymorphic store interfaces — user directory, revocation ledger and
//! two-factor challenge store — and the challenge value types.

use vstd::prelude::*;
use vstd::string::StrSliceExecFns;
use vstd::string::StringExecFns;

use crate::email::Email;
use crate::password::Password;
use crate::user::{User, UserV};

verus! {

#[derive(Debug, PartialEq, Eq, Structural)]
pub enum UserStoreError {
    UserAlreadyExists,
    UserNotFound,
    InvalidCredentials,
    UnexpectedError,
}

#[derive(Debug, PartialEq, Eq, Structural)]
pub enum TwoFACodeStoreError {
    LoginAttemptIdNotFound,
    UnexpectedError,
}

/// A directory is well formed when every record sits under its own email:
/// the invariant every store keyed by email keeps.
pub open spec fn directory_wf(directory: Map<Seq<char>, UserV>) -> bool {
    forall|k: Seq<char>|
        directory.contains_key(k) ==> (#[trigger] directory[k]).email == k
}

/// Store of accounts keyed by email. Emails are unique: a second insert under
/// the same key fails rather than overwriting.
pub trait UserStore {
    /// The directory's abstract state. An implementation outside the
    /// verifier's reach keeps the placeholder default; nothing is proved
    /// about such a backend.
    open spec fn contents(&self) -> Map<Seq<char>, UserV> {
        Map::empty()
    }

    fn add_user(&mut self, user: User) -> (r: Result<(), UserStoreError>)
        ensures
            old(self).contents().contains_key(user@.email) ==> (r matches Err(e)
                && e == UserStoreError::UserAlreadyExists
                && final(self).contents() == old(self).contents()),
            !old(self).contents().contains_key(user@.email) ==> (r matches Ok(())
                && final(self).contents() == old(self).contents().insert(user@.email, user@)),
    ;

    fn get_user(&self, email: Email) -> (r: Result<User, UserStoreError>)
        ensures
            match r {
                Ok(u) => self.contents().contains_key(email@) && u@ == self.contents()[email@],
                Err(UserStoreError::UserNotFound) => !self.contents().contains_key(email@),
                Err(_) => false,
            },
    ;

    fn validate_user(&self, email: Email, password: Password) -> (r: Result<(), UserStoreError>)
        ensures
            match r {
                Ok(u) => self.contents().contains_key(email@) && self.contents()[email@].password
                    == password@,
                Err(UserStoreError::UserNotFound) => !self.contents().contains_key(email@),
                Err(UserStoreError::InvalidCredentials) => self.contents().contains_key(email@)
                    && self.contents()[email@].password != password@,
                Err(_) => false,
            },
    ;
}

/// Ledger of revoked session tokens. A missed lookup means "not revoked".
pub trait BannedTokenStore {
    /// The ledger's abstract state. An implementation outside the verifier's
    /// reach keeps the placeholder default; nothing is proved about such a
    /// backend.
    open spec fn contents(&self) -> Set<Seq<char>> {
        Set::empty()
    }

    fn ban_token(&mut self, token: String)
        ensures
            final(self).contents() == old(self).contents().insert(token@),
    ;

    fn is_banned(&self, token: &str) -> (r: bool)
        ensures
            r == self.contents().contains(token@),
    ;
}

/// Store of the pending two-factor challenge per account: at most one active
/// challenge per email, a later issue overwriting an earlier one. Issuing
/// and consuming may fail with the unexpected category; a failed operation
/// leaves the table unchanged.
pub trait TwoFACodeStore {
    /// The challenge table's abstract state. An implementation outside the
    /// verifier's reach keeps the placeholder default; nothing is proved
    /// about such a backend.
    open spec fn contents(&self) -> Map<Seq<char>, (Seq<char>, Seq<char>)> {
        Map::empty()
    }

    fn add_code(&mut self, email: Email, login_attempt_id: LoginAttemptId, code: TwoFACode) -> (r:
        Result<(), TwoFACodeStoreError>)
        ensures
            r matches Ok(()) ==> final(self).contents() == old(self).contents().insert(
                email@,
                (login_attempt_id@, code@),
            ),
            r matches Err(e) ==> (e == TwoFACodeStoreError::UnexpectedError
                && final(self).contents() == old(self).contents()),
    ;

    fn remove_code(&mut self, email: &Email) -> (r: Result<(), TwoFACodeStoreError>)
        ensures
            r matches Ok(()) ==> final(self).contents() == old(self).contents().remove(email@),
            r matches Err(e) ==> (e == TwoFACodeStoreError::UnexpectedError
                && final(self).contents() == old(self).contents()),
    ;

    fn get_code(&self, email: &Email) -> (r: Result<
        (LoginAttemptId, TwoFACode),
        TwoFACodeStoreError,
    >)
        ensures
            match r {
                Ok(pair) => self.contents().contains_key(email@) && self.contents()[email@] == (
                    pair.0@,
                    pair.1@,
                ),
                Err(TwoFACodeStoreError::LoginAttemptIdNotFound) => !self.contents().contains_key(
                    email@,
                ),
                Err(_) => false,
            },
    ;
}

/// What `uuid::Uuid::parse_str` followed by `Display` yields on a given
/// string: `Some` of the canonical hyphenated form when the string parses as
/// an identifier, `None` otherwise.
pub uninterp spec fn uuid_parse_of(s: Seq<char>) -> Option<Seq<char>>;

/// Relies on uuid::Uuid::parse_str and its Display impl: parsing accepts a
/// string of hexadecimal digits with optional hyphens (or braced/urn forms)
/// and prints back canonically; both are functions of the input alone.
#[verifier::external_body]
fn parse_uuid_canonical(id: &str) -> (r: Option<String>)
    ensures
        match r {
            Some(t) => uuid_parse_of(id@) == Some(t@),
            None => uuid_parse_of(id@) is None,
        },
{
    match uuid::Uuid::parse_str(id) {
        Ok(u) => Some(u.to_string()),
        Err(_) => None,
    }
}

/// Relies on uuid::Uuid::new_v4 and its Display impl: a fresh random
/// identifier printed in canonical hyphenated form, which parse_str accepts
/// and prints back unchanged.
#[verifier::external_body]
fn fresh_uuid_string() -> (r: String)
    ensures
        uuid_parse_of(r@) == Some(r@),
{
    uuid::Uuid::new_v4().to_string()
}

/// Relies on rand::Rng::random_range: a number drawn uniformly at random
/// below the given bound.
#[verifier::external_body]
fn random_below(bound: u32) -> (r: u32)
    requires
        bound >= 1,
    ensures
        r < bound,
{
    rand::Rng::random_range(&mut rand::rng(), 0..bound)
}

/// The identifier handed back to the caller when a login attempt requires a
/// second factor; UUID-shaped and stored in canonical form.
#[derive(Debug)]
pub struct LoginAttemptId(String);

impl View for LoginAttemptId {
    type V = Seq<char>;

    closed spec fn view(&self) -> Seq<char> {
        self.0@
    }
}

impl Clone for LoginAttemptId {
    /// A clone is the same identifier.
    fn clone(&self) -> (r: Self)
        ensures
            r == *self,
    {
        LoginAttemptId(self.0.clone())
    }
}

impl PartialEq for LoginAttemptId {
    fn eq(&self, other: &LoginAttemptId) -> (r: bool) {
        self.0 == other.0
    }
}

impl vstd::std_specs::cmp::PartialEqSpecImpl for LoginAttemptId {
    open spec fn obeys_eq_spec() -> bool {
        true
    }

    open spec fn eq_spec(&self, other: &LoginAttemptId) -> bool {
        self@ == other@
    }
}

impl LoginAttemptId {
    /// Accepts exactly the strings that parse as an identifier, keeping the
    /// canonical form.
    pub fn parse(id: String) -> (r: Result<Self, String>)
        ensures
            match uuid_parse_of(id@) {
                Some(t) => r matches Ok(a) && a@ == t,
                None => r matches Err(m) && m@ == "Invalid id"@,
            },
    {
        match parse_uuid_canonical(id.as_str()) {
            Some(canonical) => Ok(Self(canonical)),
            None => Err("Invalid id".to_owned()),
        }
    }

    pub fn as_ref(&self) -> (r: &str)
        ensures
            r@ == self@,
    {
        self.0.as_str()
    }
}

impl Default for LoginAttemptId {
    /// A fresh random identifier; parsing its printed form yields it back.
    fn default() -> (r: Self)
        ensures
            uuid_parse_of(r@) == Some(r@),
    {
        Self(fresh_uuid_string())
    }
}

/// A one-time code is exactly six ascii digits.
pub open spec fn is_ascii_digit_char(c: char) -> bool {
    48 <= c as int <= 57
}

pub open spec fn valid_two_fa_code(s: Seq<char>) -> bool {
    s.len() == 6 && (forall|i: int| 0 <= i < s.len() ==> is_ascii_digit_char(#[trigger] s[i]))
}

/// The six-digit one-time code of a two-factor challenge; single-use.
#[derive(Debug)]
pub struct TwoFACode(String);

impl View for TwoFACode {
    type V = Seq<char>;

    closed spec fn view(&self) -> Seq<char> {
        self.0@
    }
}

impl Clone for TwoFACode {
    /// A clone is the same code.
    fn clone(&self) -> (r: Self)
        ensures
            r == *self,
    {
        TwoFACode(self.0.clone())
    }
}

impl PartialEq for TwoFACode {
    fn eq(&self, other: &TwoFACode) -> (r: bool) {
        self.0 == other.0
    }
}

impl vstd::std_specs::cmp::PartialEqSpecImpl for TwoFACode {
    open spec fn obeys_eq_spec() -> bool {
        true
    }

    open spec fn eq_spec(&self, other: &TwoFACode) -> bool {
        self@ == other@
    }
}

impl TwoFACode {
    /// Accepts exactly the strings of six ascii digits, verbatim.
    pub fn parse(code: String) -> (r: Result<Self, String>)
        ensures
            valid_two_fa_code(code@) ==> (r matches Ok(c) && c@ == code@),
            !valid_two_fa_code(code@) ==> (r matches Err(m) && m@ == "Invalid code"@),
    {
        if is_six_ascii_digits(code.as_str()) {
            Ok(Self(code))
        } else {
            Err("Invalid code".to_owned())
        }
    }

    pub fn as_ref(&self) -> (r: &str)
        ensures
            r@ == self@,
    {
        self.0.as_str()
    }
}

impl Default for TwoFACode {
    /// A uniformly random six-digit code.
    fn default() -> (r: Self)
        ensures
            valid_two_fa_code(r@),
    {
        let n = random_below(1000000);
        let s = format_six_digits(n);
        Self(s)
    }
}

fn is_six_ascii_digits(s: &str) -> (b: bool)
    ensures
        b == valid_two_fa_code(s@),
{
    let len = s.unicode_len();
    if len != 6 {
        return false;
    }
    let mut i: usize = 0;
    while i < len
        invariant
            len == s@.len(),
            len == 6,
            i <= len,
            forall|j: int| 0 <= j < i ==> is_ascii_digit_char(#[trigger] s@[j]),
        decreases len - i,
    {
        let c = s.get_char(i);
        let u = c as u32;
        if u < 48 || u > 57 {
            return false;
        }
        i += 1;
    }
    true
}

/// The decimal digit characters of a number below one million, most
/// significant first, padded to six places.
pub open spec fn digit_char(d: int) -> char {
    if d == 0 {
        '0'
    } else if d == 1 {
        '1'
    } else if d == 2 {
        '2'
    } else if d == 3 {
        '3'
    } else if d == 4 {
        '4'
    } else if d == 5 {
        '5'
    } else if d == 6 {
        '6'
    } else if d == 7 {
        '7'
    } else if d == 8 {
        '8'
    } else {
        '9'
    }
}

pub open spec fn six_digit_code_of(n: int) -> Seq<char> {
    seq![
        digit_char(n / 100000 % 10),
        digit_char(n / 10000 % 10),
        digit_char(n / 1000 % 10),
        digit_char(n / 100 % 10),
        digit_char(n / 10 % 10),
        digit_char(n % 10),
    ]
}

proof fn lemma_digit_char_is_digit(d: int)
    requires
        0 <= d <= 9,
    ensures
        is_ascii_digit_char(digit_char(d)),
{
}

fn digit_str(d: u32) -> (r: &'static str)
    requires
        d < 10,
    ensures
        r@ =~= seq![digit_char(d as int)],
{
    proof {
        reveal_strlit("0");
        reveal_strlit("1");
        reveal_strlit("2");
        reveal_strlit("3");
        reveal_strlit("4");
        reveal_strlit("5");
        reveal_strlit("6");
        reveal_strlit("7");
        reveal_strlit("8");
        reveal_strlit("9");
    }
    if d == 0 {
        "0"
    } else if d == 1 {
        "1"
    } else if d == 2 {
        "2"
    } else if d == 3 {
        "3"
    } else if d == 4 {
        "4"
    } else if d == 5 {
        "5"
    } else if d == 6 {
        "6"
    } else if d == 7 {
        "7"
    } else if d == 8 {
        "8"
    } else {
        "9"
    }
}

fn format_six_digits(n: u32) -> (s: String)
    requires
        n < 1000000,
    ensures
        s@ == six_digit_code_of(n as int),
        valid_two_fa_code(s@),
{
    let mut s = String::new();
    s.append(digit_str(n / 100000 % 10));
    s.append(digit_str(n / 10000 % 10));
    s.append(digit_str(n / 1000 % 10));
    s.append(digit_str(n / 100 % 10));
    s.append(digit_str(n / 10 % 10));
    s.append(digit_str(n % 10));
    proof {
        assert(s@ =~= six_digit_code_of(n as int));
        assert forall|i: int| 0 <= i < s@.len() implies is_ascii_digit_char(#[trigger] s@[i]) by {
            lemma_digit_char_is_digit({
                if i == 0 {
                    n / 100000 % 10
                } else if i == 1 {
                    n / 10000 % 10
                } else if i == 2 {
                    n / 1000 % 10
                } else if i == 3 {
                    n / 100 % 10
                } else if i == 4 {
                    n / 10 % 10
                } else {
                    n % 10
                }
            } as int);
        }
    }
    s
}

} // verus!
