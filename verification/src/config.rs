//! The policy configuration of the standalone form: a protected
//! toleration triple plus comma-separated allow-lists, handed over as
//! they came out of the environment.

use vstd::prelude::*;
use vstd::string::{StrSliceExecFns, StringExecFns};
use crate::policy::ProtectedToleration;
use crate::request::views_of;
use crate::toleration::Toleration;

verus! {

/// Configuration of the strict policy variant. An absent allow-list
/// counts as empty; a present one is split at every comma.
pub struct Config {
    pub toleration: Toleration,
    pub allowed_groups: Option<String>,
    pub allowed_users: Option<String>,
}

/// The index of the first comma in a string, or its length when it holds
/// none.
pub open spec fn first_comma(s: Seq<char>) -> int
    decreases s.len(),
{
    if s.len() == 0 {
        0
    } else if s[0] == ',' {
        0
    } else {
        1 + first_comma(s.drop_first())
    }
}

/// The pieces of a string split at every comma. A string without commas
/// is one piece; every comma separates two pieces, so an empty string or
/// a trailing comma yields an empty piece.
pub open spec fn split_commas(s: Seq<char>) -> Seq<Seq<char>>
    decreases s.len(),
{
    let i = first_comma(s);
    if 0 <= i < s.len() {
        seq![s.take(i)] + split_commas(s.skip(i + 1))
    } else {
        seq![s]
    }
}

/// The allow-list that an optional comma-separated string configures.
pub open spec fn split_opt(o: Option<String>) -> Seq<Seq<char>> {
    match o {
        Some(s) => split_commas(s@),
        None => Seq::empty(),
    }
}

proof fn lemma_first_comma_at(s: Seq<char>, k: int)
    requires
        0 <= k <= s.len(),
        forall|j: int| 0 <= j < k ==> s[j] != ',',
        k < s.len() ==> s[k] == ',',
    ensures
        first_comma(s) == k,
    decreases k,
{
    if k == 0 {
        if s.len() > 0 {
            assert(s[0] == ',');
        }
    } else {
        assert(s[0] != ',');
        assert forall|j: int| 0 <= j < k - 1 implies s.drop_first()[j] != ',' by {
            assert(s.drop_first()[j] == s[j + 1]);
        }
        assert(k - 1 < s.drop_first().len() ==> s.drop_first()[k - 1] == s[k]);
        lemma_first_comma_at(s.drop_first(), k - 1);
    }
}

/// Splits a string at every comma, the way the allow-lists are written
/// in the configuration.
pub fn split_commas_exec(s: &str) -> (r: Vec<String>)
    ensures
        views_of(r@) == split_commas(s@),
{
    let n = s.unicode_len();
    let mut r: Vec<String> = Vec::new();
    let mut start: usize = 0;
    let mut i: usize = 0;
    proof {
        assert(s@.skip(0) =~= s@);
        assert(views_of(r@) + split_commas(s@) =~~= split_commas(s@));
    }
    while i < n
        invariant
            start <= i <= n,
            n == s@.len(),
            forall|j: int| start <= j < i ==> s@[j] != ',',
            views_of(r@) + split_commas(s@.skip(start as int)) == split_commas(s@),
        decreases n - i,
    {
        let c = s.get_char(i);
        if c == ',' {
            let piece = s.substring_char(start, i).to_owned();
            proof {
                let t = s@.skip(start as int);
                let k = i - start;
                assert forall|j: int| 0 <= j < k implies t[j] != ',' by {
                    assert(t[j] == s@[j + start]);
                }
                assert(t[k as int] == s@[i as int]);
                lemma_first_comma_at(t, k as int);
                assert(split_commas(t) == seq![t.take(k as int)] + split_commas(
                    t.skip(k as int + 1),
                ));
                assert(t.take(k as int) =~= s@.subrange(start as int, i as int));
                assert(t.skip(k as int + 1) =~= s@.skip(i as int + 1));
            }
            let ghost old_r = r@;
            r.push(piece);
            proof {
                assert(views_of(r@) =~~= views_of(old_r) + seq![piece@]);
                assert((views_of(old_r) + seq![piece@]) + split_commas(s@.skip(i as int + 1))
                    =~~= views_of(old_r) + (seq![piece@] + split_commas(s@.skip(i as int + 1))));
                assert(seq![piece@] + split_commas(s@.skip(i as int + 1)) == split_commas(
                    s@.skip(start as int),
                ));
            }
            start = i + 1;
        }
        i += 1;
    }
    let piece = s.substring_char(start, n).to_owned();
    proof {
        let t = s@.skip(start as int);
        assert forall|j: int| 0 <= j < t.len() implies t[j] != ',' by {
            assert(t[j] == s@[j + start]);
        }
        lemma_first_comma_at(t, t.len() as int);
        assert(split_commas(t) == seq![t]);
        assert(piece@ =~= t);
    }
    let ghost old_r = r@;
    r.push(piece);
    proof {
        assert(views_of(r@) =~~= views_of(old_r) + split_commas(s@.skip(start as int)));
    }
    r
}

impl Config {
    /// The match predicate that this configuration stands for: its full
    /// toleration triple, matched literally.
    pub open spec fn protected_spec(self) -> ProtectedToleration {
        ProtectedToleration::Triple {
            key: self.toleration.key,
            operator: self.toleration.operator,
            effect: self.toleration.effect,
        }
    }

    /// Builds the match predicate that this configuration stands for.
    pub fn protected(&self) -> (r: ProtectedToleration)
        ensures
            r == self.protected_spec(),
    {
        ProtectedToleration::Triple {
            key: self.toleration.key.clone(),
            operator: self.toleration.operator.clone(),
            effect: self.toleration.effect.clone(),
        }
    }

    /// The groups that may use the protected toleration.
    pub fn allowed_groups(&self) -> (r: Vec<String>)
        ensures
            views_of(r@) == split_opt(self.allowed_groups),
    {
        match &self.allowed_groups {
            Some(s) => split_commas_exec(s.as_str()),
            None => {
                let v: Vec<String> = Vec::new();
                proof {
                    assert(views_of(v@) =~~= Seq::<Seq<char>>::empty());
                }
                v
            },
        }
    }

    /// The users that may use the protected toleration.
    pub fn allowed_users(&self) -> (r: Vec<String>)
        ensures
            views_of(r@) == split_opt(self.allowed_users),
    {
        match &self.allowed_users {
            Some(s) => split_commas_exec(s.as_str()),
            None => {
                let v: Vec<String> = Vec::new();
                proof {
                    assert(views_of(v@) =~~= Seq::<Seq<char>>::empty());
                }
                v
            },
        }
    }
}

} // verus!
