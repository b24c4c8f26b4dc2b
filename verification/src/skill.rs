//! The per-command documentation surfaces: the tight `usage:` block of a
//! command's doc, printed under a usage error.

use vstd::prelude::*;
use crate::text::{chars_of, first_match, spec_matches_at, skip_chars, split_once_str, string_of, trim_end, trim_end_chars};

verus! {

/// Where a command doc's usage block starts: at the first `usage: bl`, or
/// at the start when there is none.
pub open spec fn usage_start(doc: Seq<char>) -> int {
    match first_match(doc, "usage: bl"@) {
        Some(i) => i,
        None => 0,
    }
}

/// Where a block ends: at its first blank line (`\n\n`), or at its end.
pub open spec fn block_end(rest: Seq<char>) -> int {
    match first_match(rest, "\n\n"@) {
        Some(j) => j,
        None => rest.len() as int,
    }
}

/// The `usage:` block of a command's doc: from the first `usage: bl` (or the
/// doc's start when there is none) up to the following blank line (or the
/// end), trailing whitespace trimmed.
pub open spec fn spec_usage(doc: Seq<char>) -> Seq<char> {
    let rest = doc.skip(usage_start(doc));
    trim_end(rest.take(block_end(rest)))
}

proof fn lemma_least_match(s: Seq<char>, p: Seq<char>, k: int)
    requires
        spec_matches_at(s, k, p),
    ensures
        exists|i: int| spec_matches_at(s, i, p) && forall|j: int| 0 <= j < i ==> !spec_matches_at(s, j, p),
    decreases k,
{
    if exists|j: int| 0 <= j < k && spec_matches_at(s, j, p) {
        let j = choose|j: int| 0 <= j < k && spec_matches_at(s, j, p);
        lemma_least_match(s, p, j);
    } else {
        assert(forall|j: int| 0 <= j < k ==> !spec_matches_at(s, j, p));
    }
}

proof fn lemma_first_match_in_bounds(s: Seq<char>, p: Seq<char>)
    requires
        first_match(s, p) is Some,
    ensures
        0 <= first_match(s, p)->0 && first_match(s, p)->0 + p.len() <= s.len(),
{
    let k = choose|k: int| spec_matches_at(s, k, p);
    lemma_least_match(s, p, k);
}

fn from_usage(d: &Vec<char>) -> (r: Vec<char>)
    ensures
        r@ == d@.skip(usage_start(d@)),
{
    match split_once_str(d, &chars_of("usage: bl")) {
        Some((before, _)) => {
            proof {
                lemma_first_match_in_bounds(d@, "usage: bl"@);
            }
            skip_chars(d, before.len())
        },
        None => skip_chars(d, 0),
    }
}

fn up_to_blank(rest: &Vec<char>) -> (r: Vec<char>)
    ensures
        r@ == rest@.take(block_end(rest@)),
{
    match split_once_str(rest, &chars_of("\n\n")) {
        Some((before, _)) => {
            proof {
                lemma_first_match_in_bounds(rest@, "\n\n"@);
            }
            before
        },
        None => {
            proof {
                assert(rest@.take(rest@.len() as int) =~= rest@.skip(0));
            }
            skip_chars(rest, 0)
        },
    }
}

/// The usage block of `doc`; see [`spec_usage`].
pub fn usage(doc: &str) -> (r: String)
    ensures
        r@ == spec_usage(doc@),
{
    let d = chars_of(doc);
    let rest = from_usage(&d);
    let block = up_to_blank(&rest);
    string_of(&trim_end_chars(&block))
}

} // verus!
