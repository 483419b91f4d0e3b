//! The user's preferences as stored: which repositories have a tab, and the
//! theme. The file itself is read and written by the app; the repositories
//! are stored sorted, so that the file does not depend on the order in which
//! a set is walked.

use vstd::prelude::*;

use crate::color::ThemePreference;
use crate::text::{chars_lt, chars_of, lemma_lt_irreflexive, lemma_lt_total, lemma_lt_transitive, seq_lt};

verus! {

broadcast use vstd::string::group_string_axioms;

/// The stored preferences.
#[derive(Debug)]
pub struct StoredPrefs {
    pub visible_tab_repos: Vec<String>,
    pub theme: ThemePreference,
}

impl Default for StoredPrefs {
    fn default() -> (p: Self)
        ensures
            p.visible_tab_repos@.len() == 0,
            p.theme == ThemePreference::System,
    {
        StoredPrefs { visible_tab_repos: Vec::new(), theme: ThemePreference::System }
    }
}

/// The views of a list of strings.
pub open spec fn names(v: Seq<String>) -> Seq<Seq<char>> {
    v.map_values(|s: String| s@)
}

/// No name comes after a later one, in the order of `str`.
pub open spec fn ascending(s: Seq<Seq<char>>) -> bool {
    forall|i: int, j: int| 0 <= i < j < s.len() ==> !seq_lt(#[trigger] s[j], #[trigger] s[i])
}

proof fn lemma_insert_ascending(s: Seq<Seq<char>>, x: Seq<char>, p: int)
    requires
        ascending(s),
        0 <= p <= s.len(),
        forall|k: int| 0 <= k < p ==> !seq_lt(x, #[trigger] s[k]),
        p == s.len() || seq_lt(x, s[p]),
    ensures
        ascending(s.insert(p, x)),
{
    let r = s.insert(p, x);
    assert forall|i: int, j: int| 0 <= i < j < r.len() implies !seq_lt(#[trigger] r[j], #[trigger] r[i]) by {
        if i < p && j < p {
            assert(r[i] == s[i] && r[j] == s[j]);
        } else if i < p && j == p {
            assert(r[i] == s[i] && r[j] == x);
        } else if i < p {
            assert(r[i] == s[i] && r[j] == s[j - 1]);
        } else if i == p {
            assert(r[i] == x && r[j] == s[j - 1]);
            if seq_lt(s[j - 1], x) {
                if j - 1 > p {
                    assert(!seq_lt(s[j - 1], s[p]));
                    lemma_lt_transitive(s[j - 1], x, s[p]);
                } else {
                    lemma_lt_total(x, s[p]);
                }
            }
        } else {
            assert(r[i] == s[i - 1] && r[j] == s[j - 1]);
        }
    }
}

/// The names sorted in the order of `str`, as the stored file keeps them.
pub fn sorted_repos(repos: Vec<String>) -> (r: Vec<String>)
    ensures
        ascending(names(r@)),
        names(r@).to_multiset() == names(repos@).to_multiset(),
{
    broadcast use vstd::seq_lib::group_to_multiset_ensures;

    let ghost all = repos@;
    let mut sorted: Vec<String> = Vec::new();
    let mut keys: Vec<Vec<char>> = Vec::new();
    for repo in it: repos
        invariant
            it.seq() == all,
            ascending(names(sorted@)),
            names(sorted@).to_multiset() == names(all.take(it.index() as int)).to_multiset(),
            keys@.len() == sorted@.len(),
            forall|j: int| 0 <= j < keys@.len() ==> #[trigger] keys@[j]@ == sorted@[j]@,
    {
        let ghost i = it.index();
        let k = chars_of(repo.as_str());
        let mut p: usize = 0;
        while p < sorted.len() && !chars_lt(&k, &keys[p])
            invariant
                p <= sorted.len(),
                keys@.len() == sorted@.len(),
                forall|j: int| 0 <= j < keys@.len() ==> #[trigger] keys@[j]@ == sorted@[j]@,
                k@ == repo@,
                forall|j: int| 0 <= j < p ==> !seq_lt(repo@, #[trigger] sorted@[j]@),
            decreases sorted.len() - p,
        {
            p = p + 1;
        }
        let ghost before = sorted@;
        let ghost rv = repo@;
        proof {
            let s = names(before);
            assert forall|j: int| 0 <= j < p implies !seq_lt(rv, #[trigger] s[j]) by {
                assert(s[j] == before[j]@);
            }
            if p < before.len() {
                assert(s[p as int] == before[p as int]@);
            }
            lemma_insert_ascending(s, rv, p as int);
            assert(all.take(i + 1) =~= all.take(i as int).push(repo));
            assert(names(all.take(i + 1)) =~= names(all.take(i as int)).push(rv));
        }
        sorted.insert(p, repo);
        keys.insert(p, k);
        proof {
            assert(names(sorted@) =~= names(before).insert(p as int, rv));
            vstd::seq_lib::to_multiset_insert(names(before), p as int, rv);
            vstd::seq_lib::to_multiset_build(names(all.take(i as int)), rv);
            assert(names(sorted@).to_multiset() == names(before).to_multiset().insert(rv));
            assert(names(all.take(i + 1)).to_multiset() == names(all.take(i as int)).to_multiset().insert(rv));
        }
    }
    proof {
        assert(all.take(all.len() as int) =~= all);
    }
    sorted
}

} // verus!
