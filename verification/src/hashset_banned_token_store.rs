//! In-memory revocation ledger: a set of banned token strings.

use vstd::prelude::*;

use crate::data_stores::BannedTokenStore;

verus! {

/// The set of token strings held by a sequence of entries.
pub open spec fn tokens_set(s: Seq<String>) -> Set<Seq<char>>
    decreases s.len(),
{
    if s.len() == 0 {
        Set::empty()
    } else {
        tokens_set(s.drop_last()).insert(s.last()@)
    }
}

proof fn lemma_tokens_set_contains(s: Seq<String>, k: Seq<char>)
    ensures
        tokens_set(s).contains(k) <==> (exists|i: int| 0 <= i < s.len() && s[i]@ == k),
    decreases s.len(),
{
    if s.len() > 0 {
        lemma_tokens_set_contains(s.drop_last(), k);
        if s.last()@ == k {
            assert(s[s.len() - 1]@ == k);
        } else {
            if exists|i: int| 0 <= i < s.len() && s[i]@ == k {
                let i = choose|i: int| 0 <= i < s.len() && s[i]@ == k;
                assert(s.drop_last()[i] == s[i]);
            }
        }
    }
}

/// In-memory store of revoked tokens.
pub struct HashsetBannedTokenStore {
    store: Vec<String>,
}

impl Default for HashsetBannedTokenStore {
    /// A fresh store holds no revoked token.
    fn default() -> (r: Self)
        ensures
            r.contents() == Set::<Seq<char>>::empty(),
    {
        HashsetBannedTokenStore { store: Vec::new() }
    }
}

impl BannedTokenStore for HashsetBannedTokenStore {
    closed spec fn contents(&self) -> Set<Seq<char>> {
        tokens_set(self.store@)
    }

    fn ban_token(&mut self, token: String) {
        let ghost before = self.store@;
        self.store.push(token);
        proof {
            assert(self.store@.drop_last() =~= before);
        }
    }

    fn is_banned(&self, token: &str) -> (r: bool) {
        let sought = token.to_owned();
        let n = self.store.len();
        let mut i: usize = 0;
        while i < n
            invariant
                n == self.store@.len(),
                i <= n,
                sought@ == token@,
                forall|j: int| 0 <= j < i ==> self.store@[j]@ != token@,
            decreases n - i,
        {
            if self.store[i] == sought {
                proof {
                    lemma_tokens_set_contains(self.store@, token@);
                }
                return true;
            }
            i += 1;
        }
        proof {
            lemma_tokens_set_contains(self.store@, token@);
        }
        false
    }
}

} // verus!
