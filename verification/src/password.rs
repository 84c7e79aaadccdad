//! The password value type: a secret string with a minimum-length invariant,
//! exposed only through one narrow accessor used at the point of hashing.

use vstd::prelude::*;
use vstd::string::StrSliceExecFns;

verus! {

/// A password is accepted when it holds at least eight characters.
pub open spec fn valid_password(s: Seq<char>) -> bool {
    s.len() >= 8
}

/// A validated secret. It deliberately has no display or debug form, so it
/// cannot end up in a log by accident.
pub struct Password(String);

impl View for Password {
    type V = Seq<char>;

    closed spec fn view(&self) -> Seq<char> {
        self.0@
    }
}

impl Clone for Password {
    /// A clone is the same secret.
    fn clone(&self) -> (r: Self)
        ensures
            r == *self,
    {
        Password(self.0.clone())
    }
}

impl PartialEq for Password {
    fn eq(&self, other: &Password) -> (r: bool) {
        self.0 == other.0
    }
}

impl vstd::std_specs::cmp::PartialEqSpecImpl for Password {
    open spec fn obeys_eq_spec() -> bool {
        true
    }

    open spec fn eq_spec(&self, other: &Password) -> bool {
        self@ == other@
    }
}

impl Password {
    /// Accepts exactly the strings of eight or more characters, verbatim.
    pub fn parse(s: String) -> (r: Result<Password, String>)
        ensures
            valid_password(s@) ==> (r matches Ok(p) && p@ == s@),
            !valid_password(s@) ==> (r matches Err(m) && m@ == "Failed to parse string to a Password type"@),
    {
        if validate_password(&s) {
            Ok(Password(s))
        } else {
            Err("Failed to parse string to a Password type".to_owned())
        }
    }

    /// The narrow accessor handed to the hasher.
    pub fn as_ref(&self) -> (r: &str)
        ensures
            r@ == self@,
    {
        self.0.as_str()
    }
}

fn validate_password(s: &String) -> (b: bool)
    ensures
        b == valid_password(s@),
{
    s.as_str().unicode_len() >= 8
}

} // verus!
