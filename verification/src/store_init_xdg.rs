//! The XDG `bl init`: which of its two shapes a run takes.
//!
//! Non-stealth requires `origin`, materializes the tracker checkout and seeds
//! the bootstrap branch; it writes nothing on the clone's own branch. Stealth
//! writes the clone's `clone.json` with `stealth: true` and the tasks
//! directory; it needs no origin and no tracker checkout. Either way the
//! store is then discovered from the identity path the shape names.

use vstd::prelude::*;
use crate::error::{BallError, BallErrorV};
use crate::path::{join, spec_join};
use crate::store_init::{check_tasks_dir, spec_check_tasks_dir};
use crate::text::owned;

verus! {

/// The shape an XDG init takes.
#[derive(Debug)]
pub enum InitShape {
    /// Write `clone.json` (stealth, `tasks_dir`), create `tasks_dir`, and
    /// discover from `identity`: the tasks directory when one was given,
    /// else the clone's own directory.
    Stealth { tasks_dir: String, identity: String },
    /// Resolve `origin`, materialize and seed the tracker, and discover from
    /// the repository root.
    WithOrigin,
}

/// The shape as plain values.
pub enum InitShapeV {
    Stealth { tasks_dir: Seq<char>, identity: Seq<char> },
    WithOrigin,
}

impl View for InitShape {
    type V = InitShapeV;

    open spec fn view(&self) -> InitShapeV {
        match self {
            InitShape::Stealth { tasks_dir, identity } => InitShapeV::Stealth {
                tasks_dir: tasks_dir@,
                identity: identity@,
            },
            InitShape::WithOrigin => InitShapeV::WithOrigin,
        }
    }
}

/// What an XDG init with these inputs does, or why it refuses: a relative
/// `--tasks-dir` first, then an unset `HOME`. A given `--tasks-dir` implies
/// stealth; `cwd` is the canonicalized starting directory.
pub open spec fn spec_init(cwd: Seq<char>, stealth: bool, tasks_dir: Option<Seq<char>>, home_set: bool) -> Result<InitShapeV, BallErrorV> {
    match spec_check_tasks_dir(tasks_dir) {
        Some(e) => Err(e),
        None => if !home_set {
            Err(BallErrorV::Other("HOME must be set for XDG bl init"@))
        } else if stealth || tasks_dir is Some {
            match tasks_dir {
                Some(td) => Ok(InitShapeV::Stealth { tasks_dir: td, identity: td }),
                None => Ok(InitShapeV::Stealth { tasks_dir: spec_join(cwd, ".balls/tasks"@), identity: cwd }),
            }
        } else {
            Ok(InitShapeV::WithOrigin)
        },
    }
}

/// Decide the shape of an XDG `bl init`; see [`spec_init`].
pub fn init(cwd: &str, stealth: bool, tasks_dir: Option<String>, home_set: bool) -> (r: Result<InitShape, BallError>)
    ensures
        match spec_init(cwd@, stealth, match tasks_dir { Some(t) => Some(t@), None => None }, home_set) {
            Ok(s) => r matches Ok(x) && x@ == s,
            Err(e) => r matches Err(x) && x@ == e,
        },
{
    let checked = match &tasks_dir {
        Some(t) => check_tasks_dir(Some(t.as_str())),
        None => check_tasks_dir(None),
    };
    match checked {
        Err(e) => return Err(e),
        Ok(()) => {},
    }
    if !home_set {
        return Err(BallError::Other(owned("HOME must be set for XDG bl init")));
    }
    if stealth || tasks_dir.is_some() {
        match tasks_dir {
            Some(td) => {
                let identity = owned(td.as_str());
                Ok(InitShape::Stealth { tasks_dir: td, identity })
            },
            None => Ok(InitShape::Stealth { tasks_dir: join(cwd, ".balls/tasks"), identity: owned(cwd) }),
        }
    } else {
        Ok(InitShape::WithOrigin)
    }
}

/// Non-stealth init needs `origin` for the tracker address.
pub fn require_origin(url: Option<String>) -> (r: Result<String, BallError>)
    ensures
        match url {
            Some(u) => r == Ok::<String, BallError>(u),
            None => r matches Err(e) && e@ == BallErrorV::Other(
                "no origin configured — set `git remote add origin <url>` or use --stealth"@,
            ),
        },
{
    match url {
        Some(u) => Ok(u),
        None => Err(BallError::Other(owned("no origin configured — set `git remote add origin <url>` or use --stealth"))),
    }
}

} // verus!
