//! Substring containment over character sequences, with an optional
//! per-character lowercase folding.
//!
//! Case-sensitive and case-insensitive search share one matching routine;
//! a flag selects whether both sides are folded with [`lower_char`] before
//! characters are compared.  Folding both sides character by character is
//! the same test as folding whole strings first, so the contracts speak of
//! [`fold_lower`] applied to the full sequences.

use vstd::prelude::*;

use crate::chars::char_to_lower;
use crate::chars::fold_lower;

verus! {

/// Chooses between the raw character sequence and its lowercase folding.
pub open spec fn fold_view(s: Seq<char>, fold: bool) -> Seq<char> {
    if fold {
        fold_lower(s)
    } else {
        s
    }
}

/// `needle` occurs somewhere in `hay` as a contiguous substring.
/// An empty `needle` is contained in every `hay`.
pub open spec fn contains_substring(hay: Seq<char>, needle: Seq<char>) -> bool {
    exists|i: int|
        0 <= i <= hay.len() - needle.len() && #[trigger] hay.subrange(i, i + needle.len())
            == needle
}

/// Compares `query` against the characters of `line` starting at `start`,
/// folding both sides when `fold` is set.
fn match_at(line: &str, query: &str, start: usize, fold: bool) -> (r: bool)
    requires
        start + query@.len() <= line@.len(),
    ensures
        r == (fold_view(line@, fold).subrange(
            start as int,
            start as int + query@.len(),
        ) == fold_view(query@, fold)),
{
    let n = line.unicode_len();
    let m = query.unicode_len();
    let mut k: usize = 0;
    while k < m
        invariant
            n == line@.len(),
            m == query@.len(),
            start + m <= n,
            0 <= k <= m,
            forall|j: int|
                0 <= j < k ==> fold_view(line@, fold)[start + j] == fold_view(query@, fold)[j],
        decreases m - k,
    {
        let lc = line.get_char(start + k);
        let qc = query.get_char(k);
        let same = if fold {
            char_to_lower(lc) == char_to_lower(qc)
        } else {
            lc == qc
        };
        if !same {
            proof {
                let hay = fold_view(line@, fold);
                let needle = fold_view(query@, fold);
                assert(hay.subrange(start as int, start as int + m)[k as int] != needle[k as int]);
            }
            return false;
        }
        k += 1;
    }
    proof {
        let hay = fold_view(line@, fold);
        let needle = fold_view(query@, fold);
        assert(hay.subrange(start as int, start as int + m) =~= needle);
    }
    true
}

/// Whether `line` contains `query`, after folding both with [`lower_char`]
/// when `fold` is set.  Matching is plain character-for-character substring
/// containment: no locale handling and no Unicode normalization.
pub fn line_matches(line: &str, query: &str, fold: bool) -> (r: bool)
    ensures
        r == contains_substring(fold_view(line@, fold), fold_view(query@, fold)),
{
    let n = line.unicode_len();
    let m = query.unicode_len();
    if m > n {
        return false;
    }
    if m == 0 {
        proof {
            let hay = fold_view(line@, fold);
            let needle = fold_view(query@, fold);
            assert(needle.len() == 0);
            assert(hay.subrange(0, 0 + needle.len() as int) =~= needle);
        }
        return true;
    }
    let mut i: usize = 0;
    while i <= n - m
        invariant
            n == line@.len(),
            m == query@.len(),
            1 <= m <= n,
            0 <= i <= n - m + 1,
            forall|j: int|
                0 <= j < i ==> #[trigger] fold_view(line@, fold).subrange(j, j + m)
                    != fold_view(query@, fold),
        decreases n - m + 1 - i,
    {
        if match_at(line, query, i, fold) {
            proof {
                let hay = fold_view(line@, fold);
                let needle = fold_view(query@, fold);
                assert(needle.len() == m);
                assert(hay.subrange(i as int, i as int + needle.len() as int) == needle);
            }
            return true;
        }
        i += 1;
    }
    false
}

} // verus!
