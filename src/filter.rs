//! Name matching for node listings.
use vstd::prelude::*;
use vstd::string::*;
use crate::models::{Cluster, Node};
use crate::repository::{NodeFilter, is_substring, node_selected};
use crate::table::{keys_unique, lemma_row_at, position};

verus! {

/// Whether `pat` occurs in `s` as a run of consecutive characters.
pub fn contains_substring(s: &str, pat: &str) -> (r: bool)
    ensures
        r == is_substring(pat@, s@),
{
    let n = s.unicode_len();
    let m = pat.unicode_len();
    if m > n {
        return false;
    }
    let mut i: usize = 0;
    while i <= n - m
        invariant
            n == s@.len(),
            m == pat@.len(),
            m <= n,
            forall|k: int| 0 <= k < i ==> #[trigger] s@.subrange(k, k + m) != pat@,
        decreases n - m + 1 - i,
    {
        let mut j: usize = 0;
        let mut same = true;
        while j < m && same
            invariant
                n == s@.len(),
                m == pat@.len(),
                i + m <= n,
                j <= m,
                same ==> forall|k: int| 0 <= k < j ==> s@[i + k] == pat@[k],
                !same ==> j > 0 && s@[i + j - 1] != pat@[j - 1],
            decreases m - j,
        {
            if s.get_char(i + j) != pat.get_char(j) {
                same = false;
            }
            j = j + 1;
        }
        if same {
            assert(s@.subrange(i as int, i + m) =~= pat@);
            return true;
        }
        assert(s@.subrange(i as int, i + m)[j - 1] != pat@[j - 1]);
        i = i + 1;
    }
    proof {
        assert forall|k: int| 0 <= k <= s@.len() - pat@.len() implies #[trigger] s@.subrange(
            k,
            k + pat@.len(),
        ) != pat@ by {}
    }
    false
}

/// Whether a listing with `filter` returns `node`, given the stored clusters.
pub fn node_matches(filter: &Option<NodeFilter>, node: &Node, clusters: &Vec<Cluster>) -> (r: bool)
    requires
        keys_unique(clusters@),
    ensures
        r == node_selected(*filter, *node, clusters@),
{
    match filter {
        None => true,
        Some(f) => {
            match position(clusters, node.cluster_id) {
                None => false,
                Some(i) => {
                    proof {
                        lemma_row_at(clusters@, i as int);
                    }
                    contains_substring(node.name.as_str(), f.name.as_str())
                        || contains_substring(clusters[i].name.as_str(), f.name.as_str())
                },
            }
        },
    }
}

} // verus!
