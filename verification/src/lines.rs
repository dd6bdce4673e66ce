//! Splitting a text into lines.
//!
//! A line is a maximal piece of the text delimited by `'\n'` terminators.
//! A carriage return directly before a terminator belongs to the line
//! break and is dropped; a final piece without a terminator is kept as it
//! stands, and a trailing terminator does not produce an extra empty line.

use vstd::prelude::*;

verus! {

/// Index of the first `'\n'` in `t`, or `t.len()` when there is none.
pub open spec fn find_newline(t: Seq<char>) -> int
    decreases t.len(),
{
    if t.len() == 0 {
        0
    } else if t[0] == '\n' {
        0
    } else {
        1 + find_newline(t.subrange(1, t.len() as int))
    }
}

/// [`find_newline`] points at the first `'\n'`: nothing before it is a
/// `'\n'`, and it is a `'\n'` unless it is the end of the sequence.
pub proof fn lemma_find_newline(t: Seq<char>)
    ensures
        0 <= find_newline(t) <= t.len(),
        forall|j: int| 0 <= j < find_newline(t) ==> t[j] != '\n',
        find_newline(t) < t.len() ==> t[find_newline(t)] == '\n',
    decreases t.len(),
{
    if t.len() == 0 {
    } else if t[0] == '\n' {
    } else {
        let rest = t.subrange(1, t.len() as int);
        lemma_find_newline(rest);
        assert forall|j: int| 0 <= j < find_newline(t) implies t[j] != '\n' by {
            if j >= 1 {
                assert(t[j] == rest[j - 1]);
            }
        }
        if find_newline(t) < t.len() {
            assert(t[find_newline(t)] == rest[find_newline(rest)]);
        }
    }
}

/// Drops one carriage return from the end of a piece, if it ends in one.
pub open spec fn strip_cr(l: Seq<char>) -> Seq<char> {
    if l.len() > 0 && l[l.len() - 1] == '\r' {
        l.subrange(0, l.len() - 1)
    } else {
        l
    }
}

/// The sequence of lines of `t`, in text order.
pub open spec fn spec_lines(t: Seq<char>) -> Seq<Seq<char>>
    decreases t.len(),
    via spec_lines_decreases
{
    if t.len() == 0 {
        Seq::empty()
    } else {
        let i = find_newline(t);
        if i == t.len() {
            seq![t]
        } else {
            seq![strip_cr(t.subrange(0, i))] + spec_lines(t.subrange(i + 1, t.len() as int))
        }
    }
}

#[via_fn]
proof fn spec_lines_decreases(t: Seq<char>) {
    lemma_find_newline(t);
}

/// The character-sequence views of a sequence of borrowed lines.
pub open spec fn line_views<'a>(ls: Seq<&'a str>) -> Seq<Seq<char>> {
    ls.map_values(|l: &'a str| l@)
}

/// Splits `t` into its lines, as borrowed substrings of `t`.
pub fn split_lines<'a>(t: &'a str) -> (r: Vec<&'a str>)
    ensures
        line_views(r@) == spec_lines(t@),
{
    let n = t.unicode_len();
    let mut r: Vec<&'a str> = Vec::new();
    let mut start: usize = 0;
    let mut i: usize = 0;
    proof {
        assert(t@.subrange(0, n as int) =~= t@);
        assert(line_views(r@) + spec_lines(t@) =~= spec_lines(t@));
    }
    while i < n
        invariant
            n == t@.len(),
            0 <= start <= i <= n,
            forall|j: int| start <= j < i ==> t@[j] != '\n',
            line_views(r@) + spec_lines(t@.subrange(start as int, n as int)) == spec_lines(t@),
        decreases n - i,
    {
        let c = t.get_char(i);
        if c == '\n' {
            let end = if i > start && t.get_char(i - 1) == '\r' {
                i - 1
            } else {
                i
            };
            let piece = t.substring_char(start, end);
            proof {
                let rem = t@.subrange(start as int, n as int);
                let k = i - start;
                lemma_find_newline(rem);
                assert(rem[k] == t@[i as int]);
                assert forall|j: int| 0 <= j < k implies rem[j] != '\n' by {
                    assert(rem[j] == t@[start + j]);
                }
                assert(find_newline(rem) == k);
                let chunk = rem.subrange(0, k);
                assert(chunk =~= t@.subrange(start as int, i as int));
                assert(strip_cr(chunk) =~= piece@);
                let rem2 = rem.subrange(k + 1, rem.len() as int);
                assert(rem2 =~= t@.subrange(i + 1, n as int));
                assert(spec_lines(rem) == seq![strip_cr(chunk)] + spec_lines(rem2));
                assert(line_views(r@.push(piece)) =~= line_views(r@).push(piece@));
                assert(line_views(r@).push(piece@) + spec_lines(rem2) =~= line_views(r@) + (seq![
                    piece@,
                ] + spec_lines(rem2)));
            }
            r.push(piece);
            start = i + 1;
        }
        i += 1;
    }
    proof {
        let rem = t@.subrange(start as int, n as int);
        lemma_find_newline(rem);
        assert forall|j: int| 0 <= j < rem.len() implies rem[j] != '\n' by {
            assert(rem[j] == t@[start + j]);
        }
        assert(find_newline(rem) == rem.len());
    }
    if start < n {
        let piece = t.substring_char(start, n);
        proof {
            let rem = t@.subrange(start as int, n as int);
            assert(spec_lines(rem) == seq![rem]);
            assert(line_views(r@.push(piece)) =~= line_views(r@).push(piece@));
            assert(line_views(r@).push(piece@) =~= line_views(r@) + seq![piece@]);
        }
        r.push(piece);
    } else {
        proof {
            let rem = t@.subrange(start as int, n as int);
            assert(rem.len() == 0);
            assert(spec_lines(rem) =~= Seq::<Seq<char>>::empty());
            assert(line_views(r@) + spec_lines(rem) =~= line_views(r@));
        }
    }
    r
}

} // verus!
