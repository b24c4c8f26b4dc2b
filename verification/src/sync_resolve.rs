//! Post-merge auto-resolution of the state checkout: which conflicted files
//! the library resolves, and how.
//!
//! Task files (`.balls/tasks/*.json`) go through the field-level merge of
//! [`crate::resolve`]; notes sidecars (`*.notes.jsonl`) are accepted as git
//! left them (whichever side survived a delete/modify merge); anything else
//! fails loudly.

use vstd::prelude::*;
use crate::error::{BallError, BallErrorV};
use crate::text::{chars_of, ends_with, owned, skip_chars, spec_ends_with, spec_starts_with, starts_with, string_of};

verus! {

/// How a conflicted file is resolved.
#[derive(PartialEq, Eq, Structural, Clone, Copy, Debug)]
pub enum ConflictKind {
    /// A task file: merge the two sides field by field, save, stage.
    Task,
    /// A notes sidecar: stage it as it stands.
    Notes,
}

/// `path` relative to `dir`, the prefix compared as text at a separator
/// boundary (git reports conflicted paths as `dir` joined with the relative
/// path); `path` itself when it is not under `dir`.
pub open spec fn spec_rel(path: Seq<char>, dir: Seq<char>) -> Seq<char> {
    if dir.len() > 0 && dir.last() == '/' && spec_starts_with(path, dir) {
        path.skip(dir.len() as int)
    } else if dir.len() > 0 && spec_starts_with(path, dir.push('/')) {
        path.skip((dir.len() + 1) as int)
    } else if path == dir {
        Seq::empty()
    } else {
        path
    }
}

/// Task files live under `.balls/tasks/` and end in `.json`.
pub open spec fn spec_is_task(rel: Seq<char>) -> bool {
    spec_starts_with(rel, ".balls/tasks/"@) && spec_ends_with(rel, ".json"@)
}

/// Notes sidecars end in `.notes.jsonl`.
pub open spec fn spec_is_notes(rel: Seq<char>) -> bool {
    spec_ends_with(rel, ".notes.jsonl"@)
}

/// The relative path of a conflicted file and how it is resolved, or the
/// error that stops the resolution.
pub open spec fn spec_conflict_kind(dir: Seq<char>, path: Seq<char>) -> Result<(ConflictKind, Seq<char>), BallErrorV> {
    let rel = spec_rel(path, dir);
    if spec_is_notes(rel) {
        Ok((ConflictKind::Notes, rel))
    } else if spec_is_task(rel) {
        Ok((ConflictKind::Task, rel))
    } else {
        Err(BallErrorV::Conflict("unhandled conflict in "@ + path))
    }
}

fn rel_to(path: &[char], dir: &[char]) -> (r: Vec<char>)
    ensures
        r@ == spec_rel(path@, dir@),
{
    if dir.len() > 0 && dir[dir.len() - 1] == '/' && starts_with(path, dir) {
        return skip_chars(path, dir.len());
    }
    if dir.len() > 0 && path.len() > dir.len() && path[dir.len()] == '/' && starts_with(path, dir) {
        proof {
            assert(path@.subrange(0, (dir@.len() + 1) as int) =~= dir@.push('/'));
        }
        return skip_chars(path, dir.len() + 1);
    }
    proof {
        if dir@.len() > 0 && spec_starts_with(path@, dir@.push('/')) {
            assert(path@.subrange(0, dir@.len() as int) =~= dir@);
            assert(path@[dir@.len() as int] == dir@.push('/')[dir@.len() as int]);
        }
    }
    if path.len() == dir.len() && starts_with(path, dir) {
        proof {
            assert(path@ =~= dir@);
        }
        return Vec::new();
    }
    proof {
        if path@ == dir@ {
            assert(path@.subrange(0, dir@.len() as int) =~= dir@);
        }
    }
    let mut r: Vec<char> = Vec::new();
    let mut i: usize = 0;
    while i < path.len()
        invariant
            i <= path@.len(),
            r@ == path@.take(i as int),
        decreases path@.len() - i,
    {
        r.push(path[i]);
        i += 1;
        assert(r@ =~= path@.take(i as int));
    }
    assert(path@.take(path@.len() as int) =~= path@);
    r
}

/// Classify one conflicted file of the merge in `dir`: its path relative to
/// `dir` and whether it is a task file or a notes sidecar; any other file is
/// an unhandled conflict.
pub fn conflict_kind(dir: &str, path: &str) -> (r: Result<(ConflictKind, String), BallError>)
    ensures
        match spec_conflict_kind(dir@, path@) {
            Ok((k, rel)) => r matches Ok((k2, rel2)) && k2 == k && rel2@ == rel,
            Err(e) => r matches Err(e2) && e2@ == e,
        },
{
    let rel = rel_to(&chars_of(path), &chars_of(dir));
    if ends_with(&rel, &chars_of(".notes.jsonl")) {
        Ok((ConflictKind::Notes, string_of(&rel)))
    } else if starts_with(&rel, &chars_of(".balls/tasks/")) && ends_with(&rel, &chars_of(".json")) {
        Ok((ConflictKind::Task, string_of(&rel)))
    } else {
        let mut m = owned("unhandled conflict in ");
        m.append(path);
        Err(BallError::Conflict(m))
    }
}

} // verus!
