//! Safety rails around `bl review`'s integration-branch mutation.
//!
//! The worker's balls runtime paths must never reach the integration branch:
//! they are repo-internal state, and landing them corrupts the consuming
//! branch. Staging unstages every backstop path, and a squash that carries one
//! anyway is rejected (and the integration branch rewound) before the review
//! reports success. The git commands themselves are the caller's I/O.

use vstd::prelude::*;
use crate::error::BallError;
use crate::runtime_paths::{backstop_paths, select_backstop, spec_table, strs_view};
use crate::text::{
    chars_of, concat, join_sep, lines_of, owned, spec_join_sep, spec_lines, spec_starts_with,
    starts_with, strings_view, string_of, strip_prefix_or_self, skip_chars,
};

verus! {

/// The arguments of the `git rm` that unstages every backstop path after
/// `git add -A` in the worker's worktree: `rm --cached --ignore-unmatch -r --`
/// followed by the backstop paths.
pub fn unstage_runtime_args() -> (r: Vec<&'static str>)
    ensures
        strs_view(r@) == seq!["rm"@, "--cached"@, "--ignore-unmatch"@, "-r"@, "--"@] + select_backstop(
            spec_table(),
        ),
{
    let mut args: Vec<&'static str> = vec!["rm", "--cached", "--ignore-unmatch", "-r", "--"];
    let ghost head = strs_view(args@);
    assert(head =~= seq!["rm"@, "--cached"@, "--ignore-unmatch"@, "-r"@, "--"@]);
    let mut paths = backstop_paths();
    let ghost tail = paths@;
    args.append(&mut paths);
    assert(strs_view(args@) =~= head + strs_view(tail));
    args
}

/// Staging the worker's changes: the arguments of the two `git`
/// invocations run in the worktree, in order — `add -A`, then the `rm` that
/// unstages every backstop path ([`unstage_runtime_args`]). Pathspec
/// exclusion is refused by `git add` for gitignored paths, so the runtime
/// paths are staged first and unstaged after; `--cached` leaves the
/// working-tree symlinks in place.
pub fn add_user_changes() -> (r: (Vec<&'static str>, Vec<&'static str>))
    ensures
        strs_view(r.0@) == seq!["add"@, "-A"@],
        strs_view(r.1@) == seq!["rm"@, "--cached"@, "--ignore-unmatch"@, "-r"@, "--"@] + select_backstop(
            spec_table(),
        ),
{
    let add: Vec<&'static str> = vec!["add", "-A"];
    assert(strs_view(add@) =~= seq!["add"@, "-A"@]);
    (add, unstage_runtime_args())
}

/// Moving the integration branch back to its pre-review tip: the ref to
/// point at that tip with `update-ref`, and whether the work tree at the
/// root must then be re-synced (`reset --hard HEAD`) — only when the
/// integration branch is the one checked out there, as for the squash.
pub fn rewind_main(main_branch: &str, checked_out: bool) -> (r: (String, bool))
    ensures
        r.0@ == "refs/heads/"@ + main_branch@,
        r.1 == checked_out,
{
    (concat("refs/heads/", main_branch), checked_out)
}

/// Is `p` a runtime path or below one?
pub open spec fn touches(p: Seq<char>, r: Seq<char>) -> bool {
    p == r || spec_starts_with(p, r + seq!['/'])
}

pub open spec fn is_runtime(p: Seq<char>) -> bool {
    exists|i: int| 0 <= i < select_backstop(spec_table()).len() && touches(p, #[trigger] select_backstop(spec_table())[i])
}

/// The lines of `lines` naming a runtime path, in order.
pub open spec fn select_runtime(lines: Seq<Seq<char>>) -> Seq<Seq<char>>
    decreases lines.len(),
{
    if lines.len() == 0 {
        Seq::empty()
    } else {
        let p = select_runtime(lines.drop_last());
        if is_runtime(lines.last()) { p.push(lines.last()) } else { p }
    }
}

fn touches_runtime(p: &[char], backstop: &Vec<&'static str>) -> (r: bool)
    requires
        strs_view(backstop@) == select_backstop(spec_table()),
    ensures
        r == is_runtime(p@),
{
    let mut i: usize = 0;
    while i < backstop.len()
        invariant
            i <= backstop@.len(),
            strs_view(backstop@) == select_backstop(spec_table()),
            forall|j: int| 0 <= j < i ==> !touches(p@, #[trigger] select_backstop(spec_table())[j]),
        decreases backstop@.len() - i,
    {
        let r = chars_of(backstop[i]);
        let mut under = chars_of(backstop[i]);
        under.push('/');
        let eq = r.len() == p.len() && starts_with(p, &r);
        proof {
            assert(select_backstop(spec_table())[i as int] == strs_view(backstop@)[i as int]);
            assert(select_backstop(spec_table())[i as int] == r@);
            assert(under@ =~= r@ + seq!['/']);
            if eq {
                assert(p@ =~= r@);
            }
            if p@ == r@ {
                assert(p@.take(r@.len() as int) =~= r@);
            }
        }
        if eq || starts_with(p, &under) {
            assert(touches(p@, select_backstop(spec_table())[i as int]));
            return true;
        }
        i += 1;
    }
    false
}

/// Names of runtime paths touched by a commit, from the output of
/// `git show --name-only --format= <sha>`: each listed path that is a backstop
/// path or lies below one, in the order listed.
pub fn commit_touches_runtime(show_output: &str) -> (r: Vec<String>)
    ensures
        strings_view(r@) == select_runtime(spec_lines(show_output@)),
{
    let backstop = backstop_paths();
    let text = chars_of(show_output);
    let lines = lines_of(&text);
    let ghost ls = spec_lines(show_output@);
    let mut r: Vec<String> = Vec::new();
    let mut i: usize = 0;
    while i < lines.len()
        invariant
            i <= lines@.len(),
            lines@.len() == ls.len(),
            forall|j: int| 0 <= j < lines@.len() ==> #[trigger] lines@[j]@ == ls[j],
            strs_view(backstop@) == select_backstop(spec_table()),
            strings_view(r@) == select_runtime(ls.take(i as int)),
        decreases lines@.len() - i,
    {
        proof {
            assert(ls.take(i + 1).drop_last() =~= ls.take(i as int));
            assert(ls.take(i + 1).last() == lines@[i as int]@);
        }
        if touches_runtime(&lines[i], &backstop) {
            r.push(string_of(&lines[i]));
        }
        i += 1;
        assert(strings_view(r@) =~= select_runtime(ls.take(i as int)));
    }
    assert(ls.take(ls.len() as int) =~= ls);
    r
}

/// The backstop paths as named in the abort message: each with its `.balls/`
/// prefix factored out, in backticks.
pub open spec fn backstop_names(paths: Seq<Seq<char>>) -> Seq<Seq<char>> {
    paths.map_values(|p: Seq<char>| "`"@ + strip_prefix_or_self(p, ".balls/"@) + "`"@)
}

/// "a, b, or c": all names but the last comma-joined, then ", or " and the last.
pub open spec fn subpath_list(names: Seq<Seq<char>>) -> Seq<char> {
    spec_join_sep(names.drop_last(), ", "@) + ", or "@ + names.last()
}

/// The abort message for a squash that carries runtime paths.
pub open spec fn squash_error_message(id: Seq<char>, paths: Seq<Seq<char>>) -> Seq<char> {
    "bl review "@ + id + " aborted: squash would deliver balls runtime path"@ + (if paths.len()
        == 1 {
        ""@
    } else {
        "s"@
    }) + " "@ + spec_join_sep(paths, ", "@)
        + ". The work branch has tracked a `.balls/` subpath ("@ + subpath_list(
        backstop_names(select_backstop(spec_table())),
    )
        + ") — these are internal state, not deliverables. Run `bl init` in the repo to refresh `.gitignore`, then `git rm --cached` the offending paths on the work branch and retry."@
}

/// Build the error returned when a squash brought runtime paths in. The
/// example subpaths derive from the same backstop table the rejection uses, so
/// a new sidecar can never leave the prose stale.
pub fn runtime_in_squash_error(id: &str, paths: &[String]) -> (e: BallError)
    ensures
        e matches BallError::Other(m) && m@ == squash_error_message(id@, strings_view(paths@)),
{
    let backstop = backstop_paths();
    let prefix = chars_of(".balls/");
    let mut names: Vec<String> = Vec::new();
    let mut i: usize = 0;
    while i < backstop.len()
        invariant
            i <= backstop@.len(),
            strs_view(backstop@) == select_backstop(spec_table()),
            prefix@ == ".balls/"@,
            strings_view(names@) == backstop_names(strs_view(backstop@).take(i as int)),
        decreases backstop@.len() - i,
    {
        let p = chars_of(backstop[i]);
        let stripped = if starts_with(&p, &prefix) { skip_chars(&p, prefix.len()) } else { p };
        let mut name = owned("`");
        name.append(string_of(&stripped).as_str());
        name.append("`");
        proof {
            assert(strs_view(backstop@)[i as int] == p@);
            assert(stripped@ == strip_prefix_or_self(p@, ".balls/"@));
            assert(name@ == "`"@ + strip_prefix_or_self(p@, ".balls/"@) + "`"@);
            assert(strs_view(backstop@).take(i + 1) =~= strs_view(backstop@).take(i as int).push(p@));
            assert(backstop_names(strs_view(backstop@).take(i as int).push(p@)) =~= backstop_names(
                strs_view(backstop@).take(i as int),
            ).push(name@));
        }
        let ghost before = strings_view(names@);
        let ghost nv = name@;
        names.push(name);
        assert(strings_view(names@) =~= before.push(nv));
        i += 1;
    }
    assert(strs_view(backstop@).take(backstop@.len() as int) =~= strs_view(backstop@));
    proof {
        reveal_with_fuel(select_backstop, 8);
        assert(select_backstop(spec_table()).len() == 6);
    }
    let last = names.len() - 1;
    let mut head: Vec<String> = Vec::new();
    let mut j: usize = 0;
    while j < last
        invariant
            j <= last,
            last == names@.len() - 1,
            head@ == names@.take(j as int),
        decreases last - j,
    {
        head.push(names[j].clone());
        j += 1;
        assert(head@ =~= names@.take(j as int));
    }
    assert(strings_view(head@) =~= strings_view(names@).drop_last());
    let mut subpaths = join_sep(&head, ", ");
    subpaths.append(", or ");
    subpaths.append(names[last].as_str());
    let mut msg = concat("bl review ", id);
    msg.append(" aborted: squash would deliver balls runtime path");
    msg.append(if paths.len() == 1 { "" } else { "s" });
    msg.append(" ");
    msg.append(join_sep(paths, ", ").as_str());
    msg.append(". The work branch has tracked a `.balls/` subpath (");
    msg.append(subpaths.as_str());
    msg.append(") — these are internal state, not deliverables. Run `bl init` in the repo to refresh `.gitignore`, then `git rm --cached` the offending paths on the work branch and retry.");
    BallError::Other(msg)
}

} // verus!

verus! {

/// The paths a review squash may never deliver: everything balls keeps at
/// runtime under `.balls/` (the worktrees directory lies outside the
/// delivered tree and is not among them).
pub open spec fn squash_forbidden_roots() -> Seq<Seq<char>> {
    seq![
        ".balls/local"@,
        ".balls/tasks"@,
        ".balls/project.json"@,
        ".balls/state-repo"@,
        ".balls/plugins"@,
        ".balls/code-refs"@,
    ]
}

/// `p` is `root` itself or a path below it.
pub open spec fn at_or_below(p: Seq<char>, root: Seq<char>) -> bool {
    p == root || (p.len() > root.len() && p.take(root.len() as int + 1) == root.push('/'))
}

proof fn lemma_select_runtime_members(lines: Seq<Seq<char>>, p: Seq<char>)
    ensures
        select_runtime(lines).contains(p) <==> (lines.contains(p) && is_runtime(p)),
    decreases lines.len(),
{
    if lines.len() > 0 {
        let pre = lines.drop_last();
        lemma_select_runtime_members(pre, p);
        let sp = select_runtime(pre);
        let sl = select_runtime(lines);
        assert(lines =~= pre.push(lines.last()));
        if sl.contains(p) {
            let k = choose|k: int| 0 <= k < sl.len() && sl[k] == p;
            if k < sp.len() {
                assert(sp[k] == p);
                let j = choose|j: int| 0 <= j < pre.len() && pre[j] == p;
                assert(lines[j] == p);
            } else {
                assert(lines[lines.len() - 1] == p);
            }
        }
        if lines.contains(p) && is_runtime(p) {
            let j = choose|j: int| 0 <= j < lines.len() && lines[j] == p;
            if j < pre.len() {
                assert(pre[j] == p);
                let k = choose|k: int| 0 <= k < sp.len() && sp[k] == p;
                if sl != sp {
                    assert(sl[k] == p);
                }
            } else {
                assert(sl[sp.len() as int] == p);
            }
        }
    }
}

/// What the squash check reports of a delivered commit: exactly the listed
/// paths that are, or lie below, one of the runtime roots balls keeps under
/// `.balls/` — every one of them, with no exception — and nothing else.
pub proof fn the_squash_check_reports_every_runtime_path(lines: Seq<Seq<char>>)
    ensures
        select_backstop(spec_table()) == squash_forbidden_roots(),
        forall|p: Seq<char>|
            #[trigger] select_runtime(lines).contains(p) <==> (lines.contains(p) && exists|i: int|
                0 <= i < squash_forbidden_roots().len() && at_or_below(p, #[trigger] squash_forbidden_roots()[i])),
{
    reveal_with_fuel(select_backstop, 8);
    assert(select_backstop(spec_table()) =~= squash_forbidden_roots());
    assert forall|p: Seq<char>|
        #[trigger] select_runtime(lines).contains(p) <==> (lines.contains(p) && exists|i: int|
            0 <= i < squash_forbidden_roots().len() && at_or_below(p, #[trigger] squash_forbidden_roots()[i])) by {
        lemma_select_runtime_members(lines, p);
        let roots = squash_forbidden_roots();
        assert forall|i: int| 0 <= i < roots.len() implies (touches(p, roots[i]) <==> at_or_below(p, roots[i])) by {
            let r = roots[i];
            assert(r + seq!['/'] =~= r.push('/'));
            if p == r {
            } else if at_or_below(p, r) {
                assert(spec_starts_with(p, r + seq!['/']));
            } else if touches(p, r) {
                assert(p.take(r.len() as int + 1) == r.push('/'));
            }
        }
        if is_runtime(p) {
            let i = choose|i: int| 0 <= i < roots.len() && touches(p, #[trigger] roots[i]);
            assert(at_or_below(p, roots[i]));
        }
        if exists|i: int| 0 <= i < roots.len() && at_or_below(p, #[trigger] roots[i]) {
            let i = choose|i: int| 0 <= i < roots.len() && at_or_below(p, #[trigger] roots[i]);
            assert(touches(p, select_backstop(spec_table())[i]));
        }
    }
}

} // verus!
