//! The two search functions: given a query and a text, return the lines of
//! the text that contain the query, either case-sensitively or under the
//! per-character lowercase folding.
//!
//! Results are borrowed substrings of the text, in original line order,
//! one entry per matching line however often the query occurs inside it.

use vstd::prelude::*;

use crate::config::Config;
use crate::lines::line_views;
use crate::lines::spec_lines;
use crate::lines::split_lines;
use crate::matching::contains_substring;
use crate::matching::fold_view;
use crate::matching::line_matches;

verus! {

/// The match predicate on a line: the line contains the query, both sides
/// folded to lowercase when `fold` is set.
pub open spec fn match_pred(q: Seq<char>, fold: bool) -> spec_fn(Seq<char>) -> bool {
    |l: Seq<char>| contains_substring(fold_view(l, fold), fold_view(q, fold))
}

/// The lines of `t` that contain `q` as a literal substring, in text order.
pub open spec fn spec_search(q: Seq<char>, t: Seq<char>) -> Seq<Seq<char>> {
    spec_lines(t).filter(match_pred(q, false))
}

/// The lines of `t` whose lowercase folding contains the lowercase folding
/// of `q`, in text order.  The lines themselves are returned unfolded.
pub open spec fn spec_search_case_insensitive(q: Seq<char>, t: Seq<char>) -> Seq<Seq<char>> {
    spec_lines(t).filter(match_pred(q, true))
}

/// Shared body of the two search functions: keeps, in order, the lines of
/// `contents` that match `query` under the chosen folding.
fn search_with<'a>(query: &str, contents: &'a str, fold: bool) -> (r: Vec<&'a str>)
    ensures
        line_views(r@) == spec_lines(contents@).filter(match_pred(query@, fold)),
{
    broadcast use vstd::seq_lib::group_filter_ensures;

    let lines = split_lines(contents);
    let mut r: Vec<&'a str> = Vec::new();
    let ghost all = line_views(lines@);
    let ghost pred = match_pred(query@, fold);
    proof {
        assert(all.subrange(0, 0).filter(pred) =~= line_views(r@)) by {
            reveal(Seq::filter);
            assert(all.subrange(0, 0) =~= Seq::<Seq<char>>::empty());
        }
    }
    let mut k: usize = 0;
    while k < lines.len()
        invariant
            all == line_views(lines@),
            pred == match_pred(query@, fold),
            all == spec_lines(contents@),
            0 <= k <= lines@.len(),
            line_views(r@) == all.subrange(0, k as int).filter(pred),
        decreases lines@.len() - k,
    {
        broadcast use Seq::lemma_filter_push;

        let line = lines[k];
        proof {
            assert(all.subrange(0, k + 1) =~= all.subrange(0, k as int).push(line@));
        }
        if line_matches(line, query, fold) {
            proof {
                assert(line_views(r@.push(line)) =~= line_views(r@).push(line@));
                assert(pred(line@));
            }
            r.push(line);
        } else {
            proof {
                assert(!pred(line@));
            }
        }
        k += 1;
    }
    proof {
        assert(all.subrange(0, lines@.len() as int) =~= all);
    }
    r
}

/// Case-sensitive search: exactly the lines of `contents` that contain
/// `query` as a literal substring, in their original order, as borrowed
/// substrings of `contents`.  An empty query matches every line.
pub fn search<'a>(query: &str, contents: &'a str) -> (r: Vec<&'a str>)
    ensures
        line_views(r@) == spec_search(query@, contents@),
{
    search_with(query, contents, false)
}

/// Case-insensitive search: exactly the lines of `contents` whose lowercase
/// folding contains the lowercase folding of `query`, in their original
/// order.  The returned lines keep their original casing.
pub fn search_case_insensitive<'a>(query: &str, contents: &'a str) -> (r: Vec<&'a str>)
    ensures
        line_views(r@) == spec_search_case_insensitive(query@, contents@),
{
    search_with(query, contents, true)
}

/// The matching lines for a resolved configuration: case-insensitive
/// search when the configuration says to ignore case, case-sensitive
/// search otherwise.
pub fn matching_lines<'a>(config: &Config, contents: &'a str) -> (r: Vec<&'a str>)
    ensures
        config.ignore_case ==> line_views(r@) == spec_search_case_insensitive(
            config.query@,
            contents@,
        ),
        !config.ignore_case ==> line_views(r@) == spec_search(config.query@, contents@),
{
    if config.ignore_case {
        search_case_insensitive(config.query.as_str(), contents)
    } else {
        search(config.query.as_str(), contents)
    }
}

} // verus!
