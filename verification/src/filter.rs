//! Keyword test on one line, and on a batch of lines.

use vstd::prelude::*;

use crate::matcher::{keyword_model, law_keyword_matches_containing_lines, model_matches};
use crate::text::{seq_contains, str_contains};

verus! {

/// The lines of `lines` that contain `keyword`, in the order they came.
pub open spec fn lines_with(lines: Seq<Seq<char>>, keyword: Seq<char>) -> Seq<Seq<char>> {
    lines.filter(|l: Seq<char>| seq_contains(l, keyword))
}

/// Returns true when `line` should be emitted for the given `keyword`: it contains `keyword`.
pub fn line_matches(line: &str, keyword: &str) -> (b: bool)
    ensures
        b == seq_contains(line@, keyword@),
{
    str_contains(line, keyword)
}

/// Filters lines from a vector of strings based on a keyword, keeping their order.
pub fn filter_lines(lines: Vec<String>, keyword: &str) -> (out: Vec<String>)
    ensures
        out.deep_view() == lines_with(lines.deep_view(), keyword@),
{
    let ghost all = lines.deep_view();
    let ghost pred = |l: Seq<char>| seq_contains(l, keyword@);
    let mut out: Vec<String> = Vec::new();
    let n = lines.len();
    let mut i: usize = 0;
    while i < n
        invariant
            n == lines@.len(),
            all == lines.deep_view(),
            pred == (|l: Seq<char>| seq_contains(l, keyword@)),
            i <= n,
            out.deep_view() == all.take(i as int).filter(pred),
        decreases n - i,
    {
        let keep = line_matches(lines[i].as_str(), keyword);
        proof {
            reveal_with_fuel(Seq::<_>::filter, 1);
            assert(all.take(i + 1).drop_last() =~= all.take(i as int));
            assert(all.take(i + 1).last() == lines[i as int]@);
        }
        if keep {
            let l = lines[i].clone();
            out.push(l);
            proof {
                assert(out.deep_view() =~= all.take(i as int).filter(pred).push(lines[i as int]@));
            }
        }
        i = i + 1;
    }
    proof {
        assert(all.take(n as int) =~= all);
    }
    out
}


/// Filtering a batch by keyword keeps the lines a keyword matcher accepts, in order.
pub proof fn law_filter_lines_agrees_with_keyword_matcher(lines: Seq<Seq<char>>, k: Seq<char>)
    ensures
        lines_with(lines, k) == lines.filter(|l: Seq<char>| model_matches(keyword_model(k), l)),
{
    let p1 = |l: Seq<char>| seq_contains(l, k);
    let p2 = |l: Seq<char>| model_matches(keyword_model(k), l);
    assert forall|l: Seq<char>| #[trigger] p1(l) == p2(l) by {
        law_keyword_matches_containing_lines(k, l);
    }
    assert(p1 =~= p2);
}

} // verus!
