//! Neutralize terminal control sequences in externally-influenced text.
//!
//! Task content is rendered raw to a TTY, so a hostile string carrying CSI/OSC
//! escapes could forge listings, poison the clipboard or spoof hyperlinks.
//! This module is the display-boundary chokepoint: every offending character
//! becomes one [`MARK`], so the replacement is strictly one-to-one and callers
//! measuring display width stay correct.

use vstd::prelude::*;
use crate::text::push_char;

verus! {

/// Visible, inert stand-in for a neutralized control character.
pub const MARK: char = '\u{FFFD}';

/// The code points that can steer a terminal: the C0 block (`0x00..=0x1F`),
/// DEL (`0x7F`) and the C1 block (`0x80..=0x9F`).
pub open spec fn spec_dangerous(c: char) -> bool {
    (c as u32) <= 0x1F || (c as u32) == 0x7F || (0x80 <= (c as u32) && (c as u32) <= 0x9F)
}

/// The single-line rule: every dangerous character becomes [`MARK`].
pub open spec fn inline_char(c: char) -> char {
    if spec_dangerous(c) { MARK } else { c }
}

/// The multi-line rule: newline and tab survive, every other dangerous
/// character becomes [`MARK`].
pub open spec fn block_char(c: char) -> char {
    if c == '\n' || c == '\t' || !spec_dangerous(c) { c } else { MARK }
}

pub open spec fn spec_inline(s: Seq<char>) -> Seq<char> {
    s.map_values(|c: char| inline_char(c))
}

pub open spec fn spec_block(s: Seq<char>) -> Seq<char> {
    s.map_values(|c: char| block_char(c))
}

/// True for code points that can steer a terminal.
pub fn is_dangerous(c: char) -> (r: bool)
    ensures
        r == spec_dangerous(c),
{
    let u = c as u32;
    u <= 0x1F || u == 0x7F || (0x80 <= u && u <= 0x9F)
}

/// Single-line fields: title, tags, ids, note authors, branch, repo. Every
/// control character, tab and newline included, is neutralized.
pub fn inline(s: &str) -> (r: String)
    ensures
        r@ == spec_inline(s@),
        r@.len() == s@.len(),
{
    let mut r = String::new();
    for c in it: s.chars()
        invariant
            it.seq() == s@,
            r@ == spec_inline(it.seq().take(it.index() as int)),
    {
        let out = if is_dangerous(c) { MARK } else { c };
        proof {
            assert(it.seq().take(it.index() + 1) =~= it.seq().take(it.index() as int).push(c));
        }
        push_char(&mut r, out);
        proof {
            assert(spec_inline(it.seq().take(it.index() + 1)) =~= spec_inline(
                it.seq().take(it.index() as int),
            ).push(out));
        }
    }
    proof {
        assert(s@.take(s@.len() as int) =~= s@);
    }
    r
}

/// Multi-line fields: the wrapped description. Newline and tab are structural
/// and survive; every other control character is neutralized.
pub fn block(s: &str) -> (r: String)
    ensures
        r@ == spec_block(s@),
        r@.len() == s@.len(),
{
    let mut r = String::new();
    for c in it: s.chars()
        invariant
            it.seq() == s@,
            r@ == spec_block(it.seq().take(it.index() as int)),
    {
        let out = if c == '\n' || c == '\t' || !is_dangerous(c) { c } else { MARK };
        proof {
            assert(it.seq().take(it.index() + 1) =~= it.seq().take(it.index() as int).push(c));
        }
        push_char(&mut r, out);
        proof {
            assert(spec_block(it.seq().take(it.index() + 1)) =~= spec_block(
                it.seq().take(it.index() as int),
            ).push(out));
        }
    }
    proof {
        assert(s@.take(s@.len() as int) =~= s@);
    }
    r
}

/// What [`inline`] produces never carries a character that can steer a
/// terminal, and sanitizing it again changes nothing.
pub proof fn inline_output_is_inert(s: Seq<char>)
    ensures
        forall|i: int| 0 <= i < spec_inline(s).len() ==> !spec_dangerous(#[trigger] spec_inline(s)[i]),
        spec_inline(spec_inline(s)) == spec_inline(s),
{
    assert(!spec_dangerous(MARK));
    assert(spec_inline(spec_inline(s)) =~= spec_inline(s));
}

/// What [`block`] produces carries no steering character but newline and tab,
/// sanitizing it again changes nothing, and it keeps exactly the newlines and
/// tabs of its input.
pub proof fn block_output_keeps_only_structure(s: Seq<char>)
    ensures
        forall|i: int|
            0 <= i < spec_block(s).len() ==> (spec_dangerous(#[trigger] spec_block(s)[i]) ==> (
            spec_block(s)[i] == '\n' || spec_block(s)[i] == '\t')),
        spec_block(spec_block(s)) == spec_block(s),
        forall|i: int|
            0 <= i < s.len() ==> ((s[i] == '\n' || s[i] == '\t') <==> (#[trigger] spec_block(s)[i]
                == '\n' || spec_block(s)[i] == '\t')),
{
    assert(!spec_dangerous(MARK));
    assert(spec_block(spec_block(s)) =~= spec_block(s));
}

/// On text free of control characters, both sanitizers are the identity.
pub proof fn clean_text_is_untouched(s: Seq<char>)
    requires
        forall|i: int| 0 <= i < s.len() ==> !spec_dangerous(#[trigger] s[i]),
    ensures
        spec_inline(s) == s,
        spec_block(s) == s,
{
    assert(spec_inline(s) =~= s);
    assert(spec_block(s) =~= s);
}

} // verus!
