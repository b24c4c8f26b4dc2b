//! Candidate arithmetic for the speculator: reading what `git merge-tree`,
//! `git commit-tree` and `git worktree add/remove` report. A candidate is
//! computed, never stored: the merged tree comes from `merge-tree
//! --write-tree` with no branch, index or worktree involved, and is wrapped in
//! an unreferenced merge commit so the next merge in the chain sees real
//! ancestry. Running git is the caller's I/O.

use vstd::prelude::*;
use crate::gitout::{GitOutput, failure_message, ok_stdout, spec_ok_stdout};
use crate::text::{chars_of, concat, lines_of, owned, spec_lines, spec_trim, string_of, trim, trim_chars};

verus! {

/// The outcome of merging one sealed tip onto the chain so far.
#[derive(Debug)]
pub enum Merge {
    /// A clean merge: the resulting tree id.
    Tree(String),
    /// The merge conflicts; the candidate (and every deeper one) is
    /// unbuildable.
    Conflict,
}

/// An ASCII hexadecimal digit.
pub open spec fn is_hex(c: char) -> bool {
    ('0' <= c && c <= '9') || ('a' <= c && c <= 'f') || ('A' <= c && c <= 'F')
}

/// A full object id: forty hexadecimal digits.
pub open spec fn is_oid(s: Seq<char>) -> bool {
    s.len() == 40 && forall|i: int| 0 <= i < s.len() ==> is_hex(#[trigger] s[i])
}

/// The first line of `s` (empty when there is none), trimmed.
pub open spec fn first_line(s: Seq<char>) -> Seq<char> {
    if spec_lines(s).len() > 0 { spec_trim(spec_lines(s)[0]) } else { Seq::empty() }
}

/// How `git merge-tree --write-tree` answered: exit 0 is a clean merge whose
/// tree id is the first stdout line; exit 1 with a tree id there is a conflict;
/// anything else (exit 1 with a message, another code, a signal) is an error
/// in git's voice.
pub open spec fn spec_merge_tree(out: GitOutput) -> Result<Option<Seq<char>>, Seq<char>> {
    if out.code == Some(0i32) {
        Ok(Some(first_line(out.stdout@)))
    } else if out.code == Some(1i32) && is_oid(first_line(out.stdout@)) {
        Ok(None)
    } else {
        Err("git merge-tree: "@ + spec_trim(out.stdout@) + " "@ + spec_trim(out.stderr@))
    }
}

/// The arguments of `git merge-tree --write-tree <base> <tip>`.
pub fn merge_tree_args(base: &str, tip: &str) -> (r: Vec<String>)
    ensures
        r@.len() == 4,
        r@[0]@ == "merge-tree"@,
        r@[1]@ == "--write-tree"@,
        r@[2]@ == base@,
        r@[3]@ == tip@,
{
    vec![owned("merge-tree"), owned("--write-tree"), owned(base), owned(tip)]
}

fn all_hex(s: &[char]) -> (r: bool)
    ensures
        r == (forall|i: int| 0 <= i < s@.len() ==> is_hex(#[trigger] s@[i])),
{
    let mut i: usize = 0;
    while i < s.len()
        invariant
            i <= s@.len(),
            forall|j: int| 0 <= j < i ==> is_hex(#[trigger] s@[j]),
        decreases s@.len() - i,
    {
        let c = s[i];
        if !(('0' <= c && c <= '9') || ('a' <= c && c <= 'f') || ('A' <= c && c <= 'F')) {
            return false;
        }
        i += 1;
    }
    true
}

/// Read what `git merge-tree --write-tree base tip` reported.
pub fn merge_tree(out: &GitOutput) -> (r: Result<Merge, String>)
    ensures
        r matches Ok(Merge::Tree(t)) ==> spec_merge_tree(*out) == Ok::<Option<Seq<char>>, Seq<char>>(Some(t@)),
        r matches Ok(Merge::Conflict) ==> spec_merge_tree(*out) == Ok::<Option<Seq<char>>, Seq<char>>(None),
        r matches Err(e) ==> spec_merge_tree(*out) == Err::<Option<Seq<char>>, Seq<char>>(e@),
{
    let text = chars_of(out.stdout.as_str());
    let lines = lines_of(&text);
    let first: Vec<char> = if lines.len() > 0 { trim_chars(&lines[0]) } else { Vec::new() };
    let oid = first.len() == 40 && all_hex(&first);
    match out.code {
        Some(0) => Ok(Merge::Tree(string_of(&first))),
        Some(1) if oid => Ok(Merge::Conflict),
        _ => {
            let mut m = concat("git merge-tree: ", trim(out.stdout.as_str()).as_str());
            m.append(" ");
            m.append(trim(out.stderr.as_str()).as_str());
            Err(m)
        },
    }
}

/// The arguments of the `git commit-tree` wrapping a candidate tree in an
/// unreferenced merge commit: a pinned mechanical identity, the tree, a fixed
/// message, and each parent behind `-p`.
pub open spec fn spec_commit_tree_args(tree: Seq<char>, parents: Seq<Seq<char>>) -> Seq<Seq<char>>
    decreases parents.len(),
{
    if parents.len() == 0 {
        seq![
            "-c"@,
            "user.name=bl-speculate"@,
            "-c"@,
            "user.email=speculate@balls"@,
            "commit-tree"@,
            tree,
            "-m"@,
            "speculative candidate (bl-24e7)"@,
        ]
    } else {
        spec_commit_tree_args(tree, parents.drop_last()) + seq!["-p"@, parents.last()]
    }
}

pub open spec fn views(v: Seq<String>) -> Seq<Seq<char>> {
    v.map_values(|s: String| s@)
}

pub fn commit_tree_args(tree: &str, parents: &[String]) -> (r: Vec<String>)
    ensures
        views(r@) == spec_commit_tree_args(tree@, views(parents@)),
{
    let mut r: Vec<String> = vec![
        owned("-c"),
        owned("user.name=bl-speculate"),
        owned("-c"),
        owned("user.email=speculate@balls"),
        owned("commit-tree"),
        owned(tree),
        owned("-m"),
        owned("speculative candidate (bl-24e7)"),
    ];
    assert(views(r@) =~= spec_commit_tree_args(tree@, views(parents@).take(0)));
    let mut i: usize = 0;
    while i < parents.len()
        invariant
            i <= parents@.len(),
            views(r@) == spec_commit_tree_args(tree@, views(parents@).take(i as int)),
        decreases parents@.len() - i,
    {
        proof {
            assert(views(parents@).take(i + 1).drop_last() =~= views(parents@).take(i as int));
        }
        r.push(owned("-p"));
        r.push(parents[i].clone());
        i += 1;
        assert(views(r@) =~= spec_commit_tree_args(tree@, views(parents@).take(i as int)));
    }
    assert(views(parents@).take(parents@.len() as int) =~= views(parents@));
    r
}

/// Read what `git commit-tree` reported: the new commit's id, or git's voice.
pub fn commit_tree(out: &GitOutput) -> (r: Result<String, String>)
    ensures
        r matches Ok(s) ==> spec_ok_stdout(*out, "git commit-tree"@) == Ok::<Seq<char>, Seq<char>>(s@),
        r matches Err(e) ==> spec_ok_stdout(*out, "git commit-tree"@) == Err::<Seq<char>, Seq<char>>(e@),
{
    ok_stdout(out, "git commit-tree")
}

/// Read what `git worktree add --detach <dir> <commit>` reported.
pub fn build_dir(out: &GitOutput) -> (r: Result<(), String>)
    ensures
        r is Ok <==> out.success,
        r matches Err(e) ==> e@ == failure_message("git worktree add"@, out.stderr@),
{
    match ok_stdout(out, "git worktree add") {
        Ok(_) => Ok(()),
        Err(e) => Err(e),
    }
}

/// Read what `git worktree remove --force <dir>` reported.
pub fn remove_build_dir(out: &GitOutput) -> (r: Result<(), String>)
    ensures
        r is Ok <==> out.success,
        r matches Err(e) ==> e@ == failure_message("git worktree remove"@, out.stderr@),
{
    match ok_stdout(out, "git worktree remove") {
        Ok(_) => Ok(()),
        Err(e) => Err(e),
    }
}

} // verus!
