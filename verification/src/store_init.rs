//! The decisions of `bl init`: what a store is initialized from and what the
//! init commit carries. Creating directories, running git and writing files
//! is the caller's.

use vstd::prelude::*;
use crate::error::{BallError, BallErrorV};
use crate::gitout::GitOutput;
use crate::path::{join, same_path, spec_join, spec_same_path};
use crate::text::{chars_of, concat, owned, spec_trim, trim};

verus! {

/// `--tasks-dir` must be absolute (on Unix: begin with `/`).
pub open spec fn spec_check_tasks_dir(tasks_dir: Option<Seq<char>>) -> Option<BallErrorV> {
    match tasks_dir {
        Some(td) => if td.len() > 0 && td[0] == '/' {
            None
        } else {
            Some(BallErrorV::Other("--tasks-dir must be an absolute path, got: "@ + td))
        },
        None => None,
    }
}

/// Refuse a relative `--tasks-dir`.
pub fn check_tasks_dir(tasks_dir: Option<&str>) -> (r: Result<(), BallError>)
    ensures
        match spec_check_tasks_dir(match tasks_dir { Some(t) => Some(t@), None => None }) {
            Some(e) => r matches Err(x) && x@ == e,
            None => r is Ok,
        },
{
    match tasks_dir {
        Some(td) => {
            let cs = chars_of(td);
            let absolute = cs.len() > 0 && cs[0] == '/';
            if absolute {
                Ok(())
            } else {
                Err(BallError::Other(concat("--tasks-dir must be an absolute path, got: ", td)))
            }
        },
        None => Ok(()),
    }
}

/// Where an in-repo init roots the store and whether git is absent there:
/// the repository root when `git_root` found one; with no repository, the
/// (canonicalized) starting directory in no-git mode, but only when an
/// explicit `--tasks-dir` was given; any other failure is the init's error.
pub fn init_root(
    git_root: Result<String, BallError>,
    tasks_dir_given: bool,
    canonical_from: String,
) -> (r: Result<(String, bool), BallError>)
    ensures
        match git_root {
            Ok(root) => r == Ok::<(String, bool), BallError>((root, false)),
            Err(e) => if e is NotARepo && tasks_dir_given {
                r == Ok::<(String, bool), BallError>((canonical_from, true))
            } else {
                r == Err::<(String, bool), BallError>(e)
            },
        },
{
    match git_root {
        Ok(root) => Ok((root, false)),
        Err(BallError::NotARepo) if tasks_dir_given => Ok((canonical_from, true)),
        Err(e) => Err(e),
    }
}

/// Whether an in-repo init keeps its tasks out of any state checkout
/// (stealth): when asked for, and whenever an explicit `--tasks-dir` is
/// given.
pub fn init_uses_stealth(stealth: bool, tasks_dir_given: bool) -> (r: bool)
    ensures
        r == (stealth || tasks_dir_given),
{
    stealth || tasks_dir_given
}

/// The state branch an in-repo init records: in stealth mode the tracker's
/// `default_branch`; otherwise the branch the state checkout is on
/// (`current`), falling back to `default_branch` when it cannot be read.
pub fn init_state_branch(use_stealth: bool, current: Result<String, BallError>, default_branch: String) -> (r: String)
    ensures
        r == match current {
            Ok(b) => if use_stealth { default_branch } else { b },
            Err(_) => default_branch,
        },
{
    if use_stealth {
        return default_branch;
    }
    match current {
        Ok(b) => b,
        Err(_) => default_branch,
    }
}

/// What exposing the state checkout's tasks directory at
/// `<root>/.balls/tasks` takes.
pub enum SymlinkStep {
    /// The symlink is already there and points at the target.
    Keep,
    /// Nothing is there: create the symlink.
    Create,
    /// A symlink to somewhere else is there: remove it, then create ours.
    Replace,
}

/// The refusal to overwrite a file or directory where the symlink goes.
pub open spec fn non_symlink_message(link: Seq<char>) -> Seq<char> {
    "unexpected non-symlink at "@ + link + "; remove it and re-run `bl init`"@
}

/// Whether a symlink read as `current` points at `target`, comparing the
/// two as paths (component by component).
pub open spec fn points_at(current: Option<String>, target: Seq<char>) -> bool {
    match current {
        Some(c) => spec_same_path(c@, target),
        None => false,
    }
}

/// How `<root>/.balls/tasks` becomes a symlink to `target`, from what is
/// there now: `is_symlink` and `exists` describe the path, `current` is
/// where an existing symlink points (when it can be read). A symlink
/// already pointing at `target` (as a path) is kept, any other
/// symlink is replaced, an empty path gets the symlink, and anything else
/// there is refused rather than clobbered.
pub fn tasks_symlink_step(
    root: &str,
    is_symlink: bool,
    exists: bool,
    current: Option<String>,
    target: &str,
) -> (r: Result<SymlinkStep, BallError>)
    ensures
        is_symlink ==> (r matches Ok(step) && (if points_at(current, target@) { step is Keep } else { step is Replace })),
        !is_symlink && exists ==> (r matches Err(e) && e@ == BallErrorV::Other(non_symlink_message(spec_join(root@, ".balls/tasks"@)))),
        !is_symlink && !exists ==> (r matches Ok(step) && step is Create),
{
    if is_symlink {
        match current {
            Some(c) => if same_path(c.as_str(), target) { Ok(SymlinkStep::Keep) } else { Ok(SymlinkStep::Replace) },
            None => Ok(SymlinkStep::Replace),
        }
    } else if exists {
        let link = join(root, ".balls/tasks");
        let mut m = concat("unexpected non-symlink at ", link.as_str());
        m.append("; remove it and re-run `bl init`");
        Err(BallError::Other(m))
    } else {
        Ok(SymlinkStep::Create)
    }
}

/// The init commit's message: a re-run over an existing config says so.
pub fn init_message(already: bool) -> (r: &'static str)
    ensures
        r@ == if already { "balls: reinitialize"@ } else { "balls: initialize"@ },
{
    if already {
        "balls: reinitialize"
    } else {
        "balls: initialize"
    }
}

/// The paths the init commit stages on the code branch: the `.gitignore`
/// and the repo-owned config; in stealth mode (no state checkout) also the
/// real plugins directory's `.gitkeep`.
pub fn init_paths(stealth: bool) -> (r: Vec<String>)
    ensures
        r@.map_values(|s: String| s@) == if stealth {
            seq![".gitignore"@, ".balls/config.json"@, ".balls/plugins/.gitkeep"@]
        } else {
            seq![".gitignore"@, ".balls/config.json"@]
        },
{
    let mut v: Vec<String> = Vec::new();
    v.push(owned(".gitignore"));
    v.push(owned(".balls/config.json"));
    if stealth {
        v.push(owned(".balls/plugins/.gitkeep"));
    }
    proof {
        if stealth {
            assert(v@.map_values(|s: String| s@) =~= seq![".gitignore"@, ".balls/config.json"@, ".balls/plugins/.gitkeep"@]);
        } else {
            assert(v@.map_values(|s: String| s@) =~= seq![".gitignore"@, ".balls/config.json"@]);
        }
    }
    v
}

/// A bare init's target: an existing `.git` is reused only when it is a bare
/// repository, never clobbered; a missing one is cloned. `Ok(true)` means
/// clone.
pub fn bare_target(gitdir: &str, exists: bool, is_bare: bool) -> (r: Result<bool, BallError>)
    ensures
        !exists ==> r == Ok::<bool, BallError>(true),
        exists && is_bare ==> r == Ok::<bool, BallError>(false),
        exists && !is_bare ==> (r matches Err(e) && e@ == BallErrorV::Other(
            gitdir@ + " exists and is not a bare repo; refusing to clobber it"@,
        )),
{
    if !exists {
        Ok(true)
    } else if is_bare {
        Ok(false)
    } else {
        Err(BallError::Other(concat(gitdir, " exists and is not a bare repo; refusing to clobber it")))
    }
}

/// The outcome of single-branch cloning the source's `balls/tasks` into the
/// tracker checkout: the source must already carry the branch.
pub fn tracker_clone(out: &GitOutput) -> (r: Result<(), BallError>)
    ensures
        out.success ==> r is Ok,
        !out.success ==> (r matches Err(e) && e@ == BallErrorV::Other(
            "source has no `balls/tasks` branch — run `bl init` in a working clone and push first (README bootstrap step 1): "@
                + spec_trim(out.stderr@),
        )),
{
    if out.success {
        Ok(())
    } else {
        let mut m = owned("source has no `balls/tasks` branch — run `bl init` in a working clone and push first (README bootstrap step 1): ");
        m.append(trim(out.stderr.as_str()).as_str());
        Err(BallError::Other(m))
    }
}

} // verus!
