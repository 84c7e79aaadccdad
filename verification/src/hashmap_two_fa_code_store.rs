//! In-memory two-factor challenge store: at most one pending challenge per
//! account email.

use vstd::prelude::*;

use crate::data_stores::{LoginAttemptId, TwoFACode, TwoFACodeStore, TwoFACodeStoreError};
use crate::email::Email;

verus! {

/// The challenge table a sequence of entries describes: keyed by email, a
/// later entry overriding an earlier one under the same key.
pub open spec fn codes_map(s: Seq<(Email, (LoginAttemptId, TwoFACode))>) -> Map<
    Seq<char>,
    (Seq<char>, Seq<char>),
>
    decreases s.len(),
{
    if s.len() == 0 {
        Map::empty()
    } else {
        codes_map(s.drop_last()).insert(s.last().0@, (s.last().1.0@, s.last().1.1@))
    }
}

proof fn lemma_codes_map_contains(s: Seq<(Email, (LoginAttemptId, TwoFACode))>, k: Seq<char>)
    ensures
        codes_map(s).contains_key(k) <==> (exists|i: int| 0 <= i < s.len() && s[i].0@ == k),
    decreases s.len(),
{
    if s.len() > 0 {
        lemma_codes_map_contains(s.drop_last(), k);
        if s.last().0@ == k {
            assert(s[s.len() - 1].0@ == k);
        } else {
            if exists|i: int| 0 <= i < s.len() && s[i].0@ == k {
                let i = choose|i: int| 0 <= i < s.len() && s[i].0@ == k;
                assert(s.drop_last()[i] == s[i]);
            }
        }
    }
}

proof fn lemma_codes_map_last_match(s: Seq<(Email, (LoginAttemptId, TwoFACode))>, j: int, k: Seq<char>)
    requires
        0 <= j < s.len(),
        s[j].0@ == k,
        forall|l: int| j < l < s.len() ==> s[l].0@ != k,
    ensures
        codes_map(s).contains_key(k),
        codes_map(s)[k] == (s[j].1.0@, s[j].1.1@),
    decreases s.len(),
{
    if j == s.len() - 1 {
    } else {
        assert(s.drop_last()[j] == s[j]);
        lemma_codes_map_last_match(s.drop_last(), j, k);
    }
}

/// In-memory challenge store.
pub struct HashmapTwoFACodeStore {
    codes: Vec<(Email, (LoginAttemptId, TwoFACode))>,
}

impl Default for HashmapTwoFACodeStore {
    /// A fresh store holds no pending challenge.
    fn default() -> (r: Self)
        ensures
            r.contents() == Map::<Seq<char>, (Seq<char>, Seq<char>)>::empty(),
    {
        HashmapTwoFACodeStore { codes: Vec::new() }
    }
}

impl TwoFACodeStore for HashmapTwoFACodeStore {
    closed spec fn contents(&self) -> Map<Seq<char>, (Seq<char>, Seq<char>)> {
        codes_map(self.codes@)
    }

    fn add_code(&mut self, email: Email, login_attempt_id: LoginAttemptId, code: TwoFACode) -> (r:
        Result<(), TwoFACodeStoreError>) {
        let ghost before = self.codes@;
        self.codes.push((email, (login_attempt_id, code)));
        proof {
            assert(self.codes@.drop_last() =~= before);
        }
        Ok(())
    }

    fn remove_code(&mut self, email: &Email) -> (r: Result<(), TwoFACodeStoreError>) {
        let ghost whole = self.codes@;
        let n = self.codes.len();
        let mut kept: Vec<(Email, (LoginAttemptId, TwoFACode))> = Vec::new();
        let mut i: usize = 0;
        proof {
            assert(whole.take(0) =~= Seq::<(Email, (LoginAttemptId, TwoFACode))>::empty());
            assert(codes_map(kept@) =~= codes_map(whole.take(0)).remove(email@));
        }
        while i < n
            invariant
                n == whole.len(),
                whole == self.codes@,
                i <= n,
                codes_map(kept@) == codes_map(whole.take(i as int)).remove(email@),
            decreases n - i,
        {
            let ghost kept_before = kept@;
            let entry = &self.codes[i];
            if !(entry.0 == *email) {
                kept.push((entry.0.clone(), (entry.1.0.clone(), entry.1.1.clone())));
            }
            proof {
                assert(whole.take(i + 1).drop_last() =~= whole.take(i as int));
                if entry.0@ == email@ {
                    assert(codes_map(kept@) =~= codes_map(whole.take(i + 1)).remove(email@));
                } else {
                    assert(kept@.drop_last() =~= kept_before);
                    assert(codes_map(kept@) =~= codes_map(whole.take(i + 1)).remove(email@));
                }
            }
            i += 1;
        }
        proof {
            assert(whole.take(n as int) =~= whole);
        }
        self.codes = kept;
        Ok(())
    }

    fn get_code(&self, email: &Email) -> (r: Result<
        (LoginAttemptId, TwoFACode),
        TwoFACodeStoreError,
    >) {
        let n = self.codes.len();
        let mut i: usize = n;
        while i > 0
            invariant
                n == self.codes@.len(),
                i <= n,
                forall|l: int| i <= l < n ==> self.codes@[l].0@ != email@,
            decreases i,
        {
            i = i - 1;
            let entry = &self.codes[i];
            if entry.0 == *email {
                proof {
                    lemma_codes_map_last_match(self.codes@, i as int, email@);
                }
                return Ok((entry.1.0.clone(), entry.1.1.clone()));
            }
        }
        proof {
            lemma_codes_map_contains(self.codes@, email@);
        }
        Err(TwoFACodeStoreError::LoginAttemptIdNotFound)
    }
}

} // verus!
