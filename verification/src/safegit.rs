//! The hardening rules of git invocation that are decisions rather than
//! process plumbing: which ambient variables may cross the local-delivery
//! boundary, and which untrusted positionals are refused because git would
//! parse them as options. Building and spawning the command is the caller's.

use vstd::prelude::*;
use crate::text::{chars_of, concat, debug_quoted, str_debug};

verus! {

/// True when `value` would be read by git as an option rather than a value.
pub open spec fn spec_option_like(value: Seq<char>) -> bool {
    value.len() > 0 && value[0] == '-'
}

/// Refuse an untrusted positional (a remote URL, a refspec or a branch) that
/// begins with `-`: git would parse it as an option, not a value, and
/// `--upload-pack=...` turns that into command execution.
pub fn reject_option_like(value: &str) -> (res: Result<(), String>)
    ensures
        res is Ok <==> !spec_option_like(value@),
        res matches Err(m) ==> m@ == "refusing git argument that looks like an option: "@ + str_debug(value@),
{
    let cs = chars_of(value);
    if cs.len() > 0 && cs[0] == '-' {
        let quoted = debug_quoted(value);
        return Err(concat("refusing git argument that looks like an option: ", quoted.as_str()));
    }
    Ok(())
}

/// ASCII lower-casing of one byte.
pub open spec fn ascii_lower(b: u8) -> u8 {
    if 0x41 <= b && b <= 0x5A { (b + 32) as u8 } else { b }
}

/// `<[u8]>::eq_ignore_ascii_case`.
pub open spec fn eq_ignore_ascii_case(a: Seq<u8>, b: Seq<u8>) -> bool {
    a.len() == b.len() && forall|i: int| 0 <= i < a.len() ==> ascii_lower(#[trigger] a[i]) == ascii_lower(b[i])
}

/// The bytes of an ASCII name.
pub open spec fn ascii_bytes(s: Seq<char>) -> Seq<u8> {
    s.map_values(|c: char| c as u8)
}

/// The complete inherited `GIT_*` allowlist for local delivery: author and
/// committer identity and time.
pub open spec fn delivery_identity_vars() -> Seq<Seq<char>> {
    seq![
        "GIT_AUTHOR_NAME"@,
        "GIT_AUTHOR_EMAIL"@,
        "GIT_AUTHOR_DATE"@,
        "GIT_COMMITTER_NAME"@,
        "GIT_COMMITTER_EMAIL"@,
        "GIT_COMMITTER_DATE"@,
    ]
}

/// Whether an ambient variable named `key` may cross the delivery boundary:
/// anything outside git's namespace, and within it only the identity
/// allowlist (both compared without regard to ASCII case).
pub open spec fn spec_delivery_variable(key: Seq<u8>) -> bool {
    let is_git = key.len() >= 4 && eq_ignore_ascii_case(key.take(4), ascii_bytes("GIT_"@));
    !is_git || exists|i: int|
        0 <= i < delivery_identity_vars().len() && eq_ignore_ascii_case(
            key,
            ascii_bytes(#[trigger] delivery_identity_vars()[i]),
        )
}

fn lower(b: u8) -> (r: u8)
    ensures
        r == ascii_lower(b),
{
    if 0x41 <= b && b <= 0x5A { b + 32 } else { b }
}

/// Does `key[..name.len()]` equal the ASCII `name`, ignoring case, where
/// `whole` also demands `key` be exactly that long?
fn eq_name(key: &[u8], name: &str, whole: bool) -> (r: bool)
    ensures
        r == (if whole {
            eq_ignore_ascii_case(key@, ascii_bytes(name@))
        } else {
            key@.len() >= name@.len() && eq_ignore_ascii_case(key@.take(name@.len() as int), ascii_bytes(name@))
        }),
{
    let cs = chars_of(name);
    if cs.len() > key.len() || (whole && cs.len() != key.len()) {
        return false;
    }
    let mut i: usize = 0;
    while i < cs.len()
        invariant
            i <= cs@.len() <= key@.len(),
            cs@ == name@,
            forall|j: int| 0 <= j < i ==> ascii_lower(#[trigger] key@[j]) == ascii_lower(cs@[j] as u8),
        decreases cs@.len() - i,
    {
        if lower(key[i]) != lower(cs[i] as u8) {
            assert(ascii_lower(key@.take(cs@.len() as int)[i as int]) != ascii_lower(ascii_bytes(name@)[i as int]));
            return false;
        }
        i += 1;
    }
    proof {
        if whole {
            assert(key@.take(cs@.len() as int) =~= key@);
        }
    }
    true
}

/// Whether an ambient variable may cross the delivery boundary (its name given
/// as the bytes of the platform string).
pub fn delivery_variable(key: &[u8]) -> (r: bool)
    ensures
        r == spec_delivery_variable(key@),
{
    let is_git = eq_name(key, "GIT_", false);
    proof {
        reveal_strlit("GIT_");
        assert("GIT_"@.len() == 4);
    }
    if !is_git {
        return true;
    }
    let allowed: [&str; 6] = [
        "GIT_AUTHOR_NAME",
        "GIT_AUTHOR_EMAIL",
        "GIT_AUTHOR_DATE",
        "GIT_COMMITTER_NAME",
        "GIT_COMMITTER_EMAIL",
        "GIT_COMMITTER_DATE",
    ];
    let mut i: usize = 0;
    while i < 6
        invariant
            i <= 6,
            allowed@.map_values(|s: &str| s@) == delivery_identity_vars(),
            forall|j: int| 0 <= j < i ==> !eq_ignore_ascii_case(key@, ascii_bytes(#[trigger] delivery_identity_vars()[j])),
        decreases 6 - i,
    {
        proof {
            assert(allowed@.map_values(|s: &str| s@)[i as int] == allowed@[i as int]@);
        }
        if eq_name(key, allowed[i], true) {
            return true;
        }
        i += 1;
    }
    false
}

} // verus!
