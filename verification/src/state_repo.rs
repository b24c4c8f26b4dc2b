//! The unified state checkout: the decisions around materializing
//! `.balls/state-repo/` for a tracker address.
//!
//! First contact with an unreachable explicit tracker hard-fails: silently
//! dropping to a local orphan would let task changes drift from the project.
//! The implicit default (no configured tracker URL) falls back to a local
//! `git init`. Cloning, fetching and checking out are the caller's I/O.

use vstd::prelude::*;
use crate::error::{BallError, BallErrorV};
use crate::gitout::GitOutput;
use crate::text::{
    chars_of, concat, contains_seq, has_char, spec_contains, spec_split_once, spec_starts_with,
    spec_trim, split_once, starts_with, str_eq, trim,
};

verus! {

/// Relative path (from the repo root) of the balls-owned state clone.
pub open spec fn spec_state_repo_rel() -> Seq<char> {
    ".balls/state-repo"@
}

pub fn state_repo_rel() -> (r: &'static str)
    ensures
        r@ == spec_state_repo_rel(),
{
    ".balls/state-repo"
}

/// `user@host:path` with a non-empty host holding `@`, a non-empty path
/// without spaces, and no `://` anywhere.
pub open spec fn spec_ssh_shorthand(s: Seq<char>) -> bool {
    match spec_split_once(s, ':') {
        Some((host, path)) => host.len() > 0 && path.len() > 0 && host.contains('@') && !path.contains(' ')
            && !spec_contains(s, "://"@),
        None => false,
    }
}

/// URL-shaped `bl remaster` targets: a scheme, an absolute or explicitly
/// relative path, or ssh shorthand. Anything else is resolved as a git-remote
/// name instead.
pub open spec fn spec_looks_like_url(s: Seq<char>) -> bool {
    spec_contains(s, "://"@) || spec_starts_with(s, "/"@) || spec_starts_with(s, "./"@) || spec_starts_with(
        s,
        "../"@,
    ) || spec_ssh_shorthand(s)
}

fn ssh_shorthand(s: &[char]) -> (r: bool)
    ensures
        r == spec_ssh_shorthand(s@),
{
    match split_once(s, ':') {
        Some((host, path)) => {
            host.len() > 0 && path.len() > 0 && has_char(&host, '@') && !has_char(&path, ' ') && !contains_seq(
                s,
                &chars_of("://"),
            )
        },
        None => false,
    }
}

/// Detect URL-shaped `bl remaster` targets so a bare git-remote name can be
/// resolved against the project's `.git/config` instead.
pub fn looks_like_url(s: &str) -> (r: bool)
    ensures
        r == spec_looks_like_url(s@),
{
    let cs = chars_of(s);
    contains_seq(&cs, &chars_of("://")) || starts_with(&cs, &chars_of("/")) || starts_with(&cs, &chars_of("./"))
        || starts_with(&cs, &chars_of("../")) || ssh_shorthand(&cs)
}

pub open spec fn unreachable_message(url: Seq<char>, fetch_err: Seq<char>) -> Seq<char> {
    "could not reach state tracker `"@ + url + "`\n  underlying error: "@ + fetch_err
        + "\n  A configured state_url must be reachable for first-time setup — silently dropping to a local orphan would let your task changes drift away from the rest of the project. Options:\n  - Fix access (credentials, VPN, URL typo) and re-run.\n  - Edit state_url in .balls/config.json to point at a tracker you can reach.\n  - Run `bl remaster --detach` to drop the tracker link and work standalone."@
}

/// The hard-fail diagnostic for an unreachable explicit tracker, carrying
/// git's fetch error so "host unreachable" can be told from "permission
/// denied".
pub fn unreachable_tracker_err(url: &str, fetch_err: &str) -> (e: BallError)
    ensures
        e@ == BallErrorV::Other(unreachable_message(url@, fetch_err@)),
{
    let mut m = concat("could not reach state tracker `", url);
    m.append("`\n  underlying error: ");
    m.append(fetch_err);
    m.append("\n  A configured state_url must be reachable for first-time setup — silently dropping to a local orphan would let your task changes drift away from the rest of the project. Options:\n  - Fix access (credentials, VPN, URL typo) and re-run.\n  - Edit state_url in .balls/config.json to point at a tracker you can reach.\n  - Run `bl remaster --detach` to drop the tracker link and work standalone.");
    BallError::Other(m)
}

/// How first contact materializes the state checkout.
pub enum FirstContact {
    /// The project's own git carries the state branch (a legacy standalone
    /// repo): adopt it locally, offline, and retire the legacy worktree.
    AdoptLegacy,
    /// Clone from the tracker URL.
    Clone,
    /// No tracker URL: a solo offline repo, founded as a local orphan.
    LocalOrphan,
}

/// The first-contact choice: a legacy state branch in the project's own git
/// wins, then a tracker URL, then a local orphan.
pub fn first_contact(legacy_branch_exists: bool, has_url: bool) -> (r: FirstContact)
    ensures
        legacy_branch_exists ==> r is AdoptLegacy,
        !legacy_branch_exists && has_url ==> r is Clone,
        !legacy_branch_exists && !has_url ==> r is LocalOrphan,
{
    if legacy_branch_exists {
        FirstContact::AdoptLegacy
    } else if has_url {
        FirstContact::Clone
    } else {
        FirstContact::LocalOrphan
    }
}

/// What cloning from a tracker URL does, once `git fetch origin` has run.
pub enum CloneOutcome {
    /// The explicit tracker is unreachable: roll the scaffold back and fail.
    Unreachable,
    /// Offline with an implicit tracker: found a local orphan branch.
    OfflineOrphan,
    /// The tracker has the state branch: track it.
    Track,
    /// The tracker lacks the state branch: found an orphan and publish it
    /// (best effort).
    Publish,
}

/// The reachability rule: an unreachable explicit tracker hard-fails, an
/// unreachable implicit one falls back locally; a reachable one is tracked
/// when it has the branch, else published to.
pub fn clone_outcome(online: bool, explicit: bool, has_remote_branch: bool) -> (r: CloneOutcome)
    ensures
        !online && explicit ==> r is Unreachable,
        !online && !explicit ==> r is OfflineOrphan,
        online && has_remote_branch ==> r is Track,
        online && !has_remote_branch ==> r is Publish,
{
    if !online {
        if explicit { CloneOutcome::Unreachable } else { CloneOutcome::OfflineOrphan }
    } else if has_remote_branch {
        CloneOutcome::Track
    } else {
        CloneOutcome::Publish
    }
}

/// The `.gitattributes` line that gives notes sidecars git's union merge.
pub open spec fn notes_union_attr() -> Seq<char> {
    "*.notes.jsonl merge=union"@
}

/// Whether the seed must (re)write `.balls/tasks/.gitattributes`: when it
/// cannot be read, or lacks the union-merge line.
pub fn needs_attrs(current: Option<&str>) -> (r: bool)
    ensures
        r == match current {
            Some(s) => !spec_contains(s@, notes_union_attr()),
            None => true,
        },
{
    match current {
        Some(s) => !contains_seq(&chars_of(s), &chars_of("*.notes.jsonl merge=union")),
        None => true,
    }
}

/// Align a warm state checkout onto the configured branch: `current` is the
/// checkout's branch (`None` when git could not say). Returns whether the
/// checkout must be moved (`checkout -B <branch>`); already on it, nothing
/// is done.
pub fn align_warm_branch(current: Option<&str>, branch: &str) -> (r: bool)
    ensures
        r == match current {
            Some(h) => h@ != branch@,
            None => true,
        },
{
    match current {
        Some(h) => !str_eq(h, branch),
        None => true,
    }
}

/// What `git fetch origin` in the new checkout says: whether the tracker was
/// reached, and otherwise git's trimmed error.
pub fn fetch_origin(out: &GitOutput) -> (r: (bool, String))
    ensures
        r.0 == out.success,
        out.success ==> r.1@ == Seq::<char>::empty(),
        !out.success ==> r.1@ == spec_trim(out.stderr@),
{
    if out.success {
        (true, String::new())
    } else {
        (false, trim(out.stderr.as_str()))
    }
}

} // verus!
