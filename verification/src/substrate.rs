//! The two-branch substrate: the landing (`balls/config`, holding `config/`)
//! and the store (the configured tasks branch, holding `tasks/`), each a real
//! checkout of one repository.
//!
//! The landing is founded eagerly; the store is materialized lazily: the
//! branch is checked out when a ref already exists and founded as a fresh
//! orphan only when none does. Re-running converges to a no-op. Running git
//! is the caller's; the decisions are here.

use vstd::prelude::*;
use crate::gitout::GitOutput;
use crate::text::{concat, str_eq, trim};

verus! {

/// The landing branch.
pub open spec fn spec_landing_branch() -> Seq<char> {
    "balls/config"@
}

/// `refs/heads/<name>`.
pub fn branch_ref(name: &str) -> (r: String)
    ensures
        r@ == "refs/heads/"@ + name@,
{
    concat("refs/heads/", name)
}

/// The landing branch's full ref name.
pub fn landing_ref() -> (r: String)
    ensures
        r@ == "refs/heads/"@ + spec_landing_branch(),
{
    branch_ref("balls/config")
}

/// Is the landing founded? A founded landing has a commit on its branch:
/// `verify` is what `git rev-parse --verify --quiet <landing ref>` gave.
pub fn is_landing(verify: &GitOutput) -> (r: bool)
    ensures
        r == verify.success,
{
    verify.success
}

/// Where the store checkout stands relative to the configured branch.
#[derive(PartialEq, Eq, Structural, Clone, Copy, Debug)]
pub enum Placement {
    /// No store checkout yet: add the worktree on the branch.
    Add,
    /// The checkout sits on another branch: switch it onto the configured one.
    Switch,
    /// The checkout already sits on the configured branch.
    Keep,
}

/// Ensure the configured tasks branch `name` is the store checkout:
/// `branch_exists` is whether a local ref `refs/heads/<name>` resolves, and
/// `checked_out` the store checkout's current branch as git printed it
/// (`None` when there is no store checkout). Returns whether to found a fresh
/// orphan branch first, and where the checkout goes.
pub fn materialize(name: &str, branch_exists: bool, checked_out: Option<&str>) -> (r: (bool, Placement))
    ensures
        r == spec_materialize(name@, branch_exists, match checked_out { Some(b) => Some(b@), None => None }),
{
    let placement = match checked_out {
        None => Placement::Add,
        Some(b) => if str_eq(trim(b).as_str(), name) {
            Placement::Keep
        } else {
            Placement::Switch
        },
    };
    (!branch_exists, placement)
}

/// The `mktree` line of the founding subtree: a tracked empty `.gitkeep`.
pub fn gitkeep_entry(blob: &str) -> (r: String)
    ensures
        r@ == "100644 blob "@ + blob@ + "\t.gitkeep\n"@,
{
    let mut r = concat("100644 blob ", blob);
    r.append("\t.gitkeep\n");
    r
}

/// The `mktree` line of the founding root: the `tasks` subtree.
pub fn tasks_entry(subtree: &str) -> (r: String)
    ensures
        r@ == "040000 tree "@ + subtree@ + "\ttasks\n"@,
{
    let mut r = concat("040000 tree ", subtree);
    r.append("\ttasks\n");
    r
}

} // verus!

verus! {

/// What materializing decides: whether to found the branch, and where the
/// store checkout goes (`checked_out` is the checkout's branch as git printed
/// it, `None` with no checkout).
pub open spec fn spec_materialize(name: Seq<char>, branch_exists: bool, checked_out: Option<Seq<char>>) -> (bool, Placement) {
    (
        !branch_exists,
        match checked_out {
            None => Placement::Add,
            Some(b) => if crate::text::spec_trim(b) == name {
                Placement::Keep
            } else {
                Placement::Switch
            },
        },
    )
}

/// Re-running converges: once the branch exists and the store checkout sits
/// on it, materializing founds nothing and moves nothing.
pub proof fn rematerializing_is_a_no_op(name: Seq<char>, printed: Seq<char>)
    requires
        crate::text::spec_trim(printed) == name,
    ensures
        spec_materialize(name, true, Some(printed)) == (false, Placement::Keep),
{
}

} // verus!
