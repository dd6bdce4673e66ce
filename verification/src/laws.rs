//! General properties of the search functions, stated over their
//! specification-level models and proved once for all queries and texts.

use vstd::prelude::*;

use crate::chars::fold_lower;
use crate::lines::spec_lines;
use crate::matching::contains_substring;
use crate::search::match_pred;
use crate::search::spec_search;
use crate::search::spec_search_case_insensitive;

verus! {

/// Filtering with a weaker predicate keeps at least as many elements.
proof fn lemma_filter_weaker_len<A>(s: Seq<A>, p: spec_fn(A) -> bool, w: spec_fn(A) -> bool)
    requires
        forall|i: int| 0 <= i < s.len() && p(#[trigger] s[i]) ==> w(s[i]),
    ensures
        s.filter(p).len() <= s.filter(w).len(),
    decreases s.len(),
{
    if s.len() == 0 {
        assert(s.filter(p).len() == 0 && s.filter(w).len() == 0) by {
            reveal(Seq::filter);
        }
    } else {
        let rest = s.drop_last();
        lemma_filter_weaker_len(rest, p, w);
        rest.lemma_filter_len_push(p, s.last());
        rest.lemma_filter_len_push(w, s.last());
        assert(rest.push(s.last()) =~= s);
        assert(s.filter(p) == rest.push(s.last()).filter(p));
        assert(s.filter(w) == rest.push(s.last()).filter(w));
    }
}

/// Filtering with a predicate that holds of every element keeps the
/// sequence unchanged.
proof fn lemma_filter_all_true<A>(s: Seq<A>, p: spec_fn(A) -> bool)
    requires
        forall|i: int| 0 <= i < s.len() ==> p(#[trigger] s[i]),
    ensures
        s.filter(p) == s,
    decreases s.len(),
{
    if s.len() == 0 {
        assert(s.filter(p) =~= s) by {
            reveal(Seq::filter);
        }
    } else {
        let rest = s.drop_last();
        lemma_filter_all_true(rest, p);
        rest.lemma_filter_push(s.last(), p);
        assert(rest.push(s.last()) =~= s);
        assert(s.filter(p) == rest.push(s.last()).filter(p));
        assert(rest.filter(p).push(s.last()) =~= s);
    }
}

/// Filtering with a predicate that holds of no element leaves nothing.
proof fn lemma_filter_all_false<A>(s: Seq<A>, p: spec_fn(A) -> bool)
    requires
        forall|i: int| 0 <= i < s.len() ==> !p(#[trigger] s[i]),
    ensures
        s.filter(p) == Seq::<A>::empty(),
    decreases s.len(),
{
    if s.len() == 0 {
        assert(s.filter(p) =~= Seq::<A>::empty()) by {
            reveal(Seq::filter);
        }
    } else {
        let rest = s.drop_last();
        lemma_filter_all_false(rest, p);
        rest.lemma_filter_push(s.last(), p);
        assert(rest.push(s.last()) =~= s);
        assert(s.filter(p) == rest.push(s.last()).filter(p));
    }
}

/// A case-sensitive match survives lowercase folding: the folding is
/// applied character by character, so a folded occurrence of the query
/// stands exactly where the original occurrence stood.
pub proof fn lemma_contains_fold(l: Seq<char>, q: Seq<char>)
    requires
        contains_substring(l, q),
    ensures
        contains_substring(fold_lower(l), fold_lower(q)),
{
    let i = choose|i: int|
        0 <= i <= l.len() - q.len() && #[trigger] l.subrange(i, i + q.len()) == q;
    assert(fold_lower(l).subrange(i, i + fold_lower(q).len()) =~= fold_lower(q)) by {
        assert forall|k: int| 0 <= k < q.len() implies fold_lower(l)[i + k] == fold_lower(q)[k] by {
            assert(l.subrange(i, i + q.len())[k] == l[i + k]);
        }
    }
}

/// Search returns only lines of the text, each of which contains the
/// query, and never more lines than the text has.  Order and multiplicity
/// are carried by the contract of `search` itself: its result is exactly
/// the filtered line sequence.
pub proof fn lemma_search_sound(q: Seq<char>, t: Seq<char>)
    ensures
        forall|i: int|
            0 <= i < spec_search(q, t).len() ==> contains_substring(
                #[trigger] spec_search(q, t)[i],
                q,
            ),
        forall|i: int|
            0 <= i < spec_search(q, t).len() ==> spec_lines(t).contains(
                #[trigger] spec_search(q, t)[i],
            ),
        spec_search(q, t).len() <= spec_lines(t).len(),
{
    broadcast use vstd::seq_lib::group_filter_ensures;
    broadcast use Seq::lemma_filter_contains_rev;

    let p = match_pred(q, false);
    let r = spec_search(q, t);
    assert forall|i: int| 0 <= i < r.len() implies contains_substring(#[trigger] r[i], q)
        && spec_lines(t).contains(r[i]) by {
        assert(p(r[i]));
        assert(r.contains(r[i]));
    }
}

/// Case folding can only relax matching: every line the case-sensitive
/// search keeps, the case-insensitive search keeps too, so the former
/// never returns more lines than the latter.
pub proof fn lemma_case_insensitive_superset(q: Seq<char>, t: Seq<char>)
    ensures
        spec_search(q, t).len() <= spec_search_case_insensitive(q, t).len(),
{
    let p = match_pred(q, false);
    let w = match_pred(q, true);
    let ls = spec_lines(t);
    assert forall|i: int| 0 <= i < ls.len() && p(#[trigger] ls[i]) implies w(ls[i]) by {
        lemma_contains_fold(ls[i], q);
    }
    lemma_filter_weaker_len(ls, p, w);
}

/// Searching twice with identical inputs yields identical results: each
/// search function's outcome is a pure function of query and text, with
/// no state carried between calls.
pub proof fn lemma_search_idempotent(
    q: Seq<char>,
    t: Seq<char>,
    r1: Seq<Seq<char>>,
    r2: Seq<Seq<char>>,
)
    requires
        r1 == spec_search(q, t),
        r2 == spec_search(q, t),
    ensures
        r1 == r2,
{
}

/// The case-insensitive counterpart of [`lemma_search_idempotent`].
pub proof fn lemma_search_case_insensitive_idempotent(
    q: Seq<char>,
    t: Seq<char>,
    r1: Seq<Seq<char>>,
    r2: Seq<Seq<char>>,
)
    requires
        r1 == spec_search_case_insensitive(q, t),
        r2 == spec_search_case_insensitive(q, t),
    ensures
        r1 == r2,
{
}

/// An empty query matches every line, in both modes.
pub proof fn lemma_empty_query_matches_all(q: Seq<char>, t: Seq<char>)
    requires
        q.len() == 0,
    ensures
        spec_search(q, t) == spec_lines(t),
        spec_search_case_insensitive(q, t) == spec_lines(t),
{
    let ls = spec_lines(t);
    assert forall|i: int| 0 <= i < ls.len() implies match_pred(q, false)(#[trigger] ls[i]) by {
        let l = ls[i];
        assert(l.subrange(0int, 0int + q.len()) =~= q);
    }
    assert forall|i: int| 0 <= i < ls.len() implies match_pred(q, true)(#[trigger] ls[i]) by {
        let l = ls[i];
        assert(fold_lower(l).subrange(0int, 0int + fold_lower(q).len()) =~= fold_lower(q));
    }
    lemma_filter_all_true(ls, match_pred(q, false));
    lemma_filter_all_true(ls, match_pred(q, true));
}

/// A query that occurs in no line of the text yields an empty result,
/// not an error: case-sensitive search simply keeps nothing.
pub proof fn lemma_absent_query_empty_result(q: Seq<char>, t: Seq<char>)
    requires
        forall|i: int|
            0 <= i < spec_lines(t).len() ==> !contains_substring(#[trigger] spec_lines(t)[i], q),
    ensures
        spec_search(q, t) == Seq::<Seq<char>>::empty(),
{
    lemma_filter_all_false(spec_lines(t), match_pred(q, false));
}

/// The case-insensitive counterpart of [`lemma_absent_query_empty_result`]:
/// when the folded query occurs in no folded line, nothing is kept.
pub proof fn lemma_absent_query_empty_result_case_insensitive(q: Seq<char>, t: Seq<char>)
    requires
        forall|i: int|
            0 <= i < spec_lines(t).len() ==> !contains_substring(
                fold_lower(#[trigger] spec_lines(t)[i]),
                fold_lower(q),
            ),
    ensures
        spec_search_case_insensitive(q, t) == Seq::<Seq<char>>::empty(),
{
    lemma_filter_all_false(spec_lines(t), match_pred(q, true));
}

} // verus!
