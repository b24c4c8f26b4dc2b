//! Code-repo provenance string for tasks.
//!
//! `task.delivered_repo` records where a delivery happened and always resolves
//! to something: the `origin` URL, else the repo directory's name, else the
//! path. `task.repo` takes only a fetchable `origin` URL or nothing: a bare
//! basename is not something a reader on another clone can fetch.
//!
//! Running `git remote get-url origin` is the caller's I/O; this module holds
//! the choices made on what it returned.

use vstd::prelude::*;
use crate::path::{file_name, spec_file_name};
use crate::text::{owned, spec_trim, trim};

verus! {

/// The fetchable `origin` URL a successful `git remote get-url origin`
/// printed, or `None` when the command failed or printed nothing but
/// whitespace.
pub open spec fn spec_origin_url(success: bool, stdout: Seq<char>) -> Option<Seq<char>> {
    if !success || spec_trim(stdout).len() == 0 {
        None
    } else {
        Some(spec_trim(stdout))
    }
}

/// The provenance choice: `origin` URL if present, else the repo's directory
/// name, else the full path.
pub open spec fn spec_identity(url: Option<Seq<char>>, root: Seq<char>) -> Seq<char> {
    match url {
        Some(u) => u,
        None => match spec_file_name(root) {
            Some(n) => n,
            None => root,
        },
    }
}

/// The repo's `origin` URL from the outcome of `git remote get-url origin`
/// (its exit status and standard output): the trimmed output when the command
/// succeeded and printed a URL, `None` otherwise. Never a basename or a path.
pub fn origin_url(success: bool, stdout: &str) -> (r: Option<String>)
    ensures
        r matches Some(u) ==> spec_origin_url(success, stdout@) == Some(u@),
        r is None ==> spec_origin_url(success, stdout@) is None,
{
    if !success {
        return None;
    }
    let url = trim(stdout);
    if url.as_str().unicode_len() == 0 {
        None
    } else {
        Some(url)
    }
}

/// Pure choice: `origin` URL if present, else the repo's directory name, else
/// the full path.
pub fn identity_from(url: Option<String>, root: &str) -> (r: String)
    ensures
        r@ == spec_identity(
            match url {
                Some(u) => Some(u@),
                None => None,
            },
            root@,
        ),
{
    match url {
        Some(u) => u,
        None => match file_name(root) {
            Some(n) => n,
            None => owned(root),
        },
    }
}

} // verus!

verus! {

/// Provenance string for the code repo rooted at `root`, given the outcome of
/// `git remote get-url origin` there: URL > basename > path. Always returns
/// something, so a delivery never records a silent null.
pub fn current(success: bool, stdout: &str, root: &str) -> (r: String)
    ensures
        r@ == spec_identity(spec_origin_url(success, stdout@), root@),
{
    identity_from(origin_url(success, stdout), root)
}

} // verus!
