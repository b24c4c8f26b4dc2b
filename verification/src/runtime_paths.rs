//! Single source of truth for balls' internal runtime paths.
//!
//! `bl` materializes several paths inside a workspace that are its own state,
//! not deliverables. Two consumers must keep every one of them off the
//! workspace's integration branch: the `.gitignore` written at `bl init`, and
//! the `bl review` squash backstop, which strips them from the squash and
//! rejects any squash that carries one anyway. Both derive from this one table,
//! so a new runtime path is a single row. `.balls/config.json` is not here: it
//! is a committed, workspace-owned deliverable.

use vstd::prelude::*;

verus! {

/// One balls-internal runtime path, with the facts that decide how each
/// consumer treats it.
pub struct RuntimePath {
    /// Path, relative to the repo root.
    pub rel: &'static str,
    /// Whether the path exists in stealth mode.
    pub in_stealth: bool,
    /// Whether the `bl review` squash backstop covers this path.
    pub backstop: bool,
}

/// The table as plain values: `(rel, in_stealth, backstop)` per row.
pub open spec fn spec_table() -> Seq<(Seq<char>, bool, bool)> {
    seq![
        (".balls/local"@, true, true),
        (".balls/tasks"@, false, true),
        (".balls/project.json"@, false, true),
        (".balls/state-repo"@, false, true),
        (".balls/plugins"@, false, true),
        (".balls/code-refs"@, true, true),
        (".balls-worktrees"@, true, false),
    ]
}

/// The `rel` of each row of `rows` that the backstop covers, in table order.
pub open spec fn select_backstop(rows: Seq<(Seq<char>, bool, bool)>) -> Seq<Seq<char>>
    decreases rows.len(),
{
    if rows.len() == 0 {
        Seq::empty()
    } else {
        let p = select_backstop(rows.drop_last());
        if rows.last().2 { p.push(rows.last().0) } else { p }
    }
}

/// The `rel` of each row of `rows` present in a `.gitignore` for the given
/// mode: every row, dropping those absent under stealth.
pub open spec fn select_gitignore(rows: Seq<(Seq<char>, bool, bool)>, stealth: bool) -> Seq<
    Seq<char>,
>
    decreases rows.len(),
{
    if rows.len() == 0 {
        Seq::empty()
    } else {
        let p = select_gitignore(rows.drop_last(), stealth);
        if rows.last().1 || !stealth { p.push(rows.last().0) } else { p }
    }
}

pub open spec fn strs_view(v: Seq<&'static str>) -> Seq<Seq<char>> {
    v.map_values(|s: &'static str| s@)
}

pub open spec fn rows_view(v: Seq<RuntimePath>) -> Seq<(Seq<char>, bool, bool)> {
    v.map_values(|r: RuntimePath| (r.rel@, r.in_stealth, r.backstop))
}

/// The canonical runtime-path table. Adding a sidecar is one row, and every
/// consumer picks it up.
pub fn runtime_paths() -> (t: Vec<RuntimePath>)
    ensures
        rows_view(t@) == spec_table(),
{
    let t = vec![
        RuntimePath { rel: ".balls/local", in_stealth: true, backstop: true },
        RuntimePath { rel: ".balls/tasks", in_stealth: false, backstop: true },
        RuntimePath { rel: ".balls/project.json", in_stealth: false, backstop: true },
        RuntimePath { rel: ".balls/state-repo", in_stealth: false, backstop: true },
        RuntimePath { rel: ".balls/plugins", in_stealth: false, backstop: true },
        RuntimePath { rel: ".balls/code-refs", in_stealth: true, backstop: true },
        RuntimePath { rel: ".balls-worktrees", in_stealth: true, backstop: false },
    ];
    assert(rows_view(t@) =~= spec_table());
    t
}

/// Paths the `bl review` squash backstop strips and rejects: the `backstop`
/// subset of the table, in table order.
pub fn backstop_paths() -> (r: Vec<&'static str>)
    ensures
        strs_view(r@) == select_backstop(spec_table()),
{
    let table = runtime_paths();
    let mut r: Vec<&'static str> = Vec::new();
    let mut i: usize = 0;
    while i < table.len()
        invariant
            i <= table@.len(),
            rows_view(table@) == spec_table(),
            strs_view(r@) == select_backstop(rows_view(table@).take(i as int)),
        decreases table@.len() - i,
    {
        proof {
            assert(rows_view(table@).take(i + 1).drop_last() =~= rows_view(table@).take(i as int));
        }
        if table[i].backstop {
            r.push(table[i].rel);
        }
        i += 1;
        assert(strs_view(r@) =~= select_backstop(rows_view(table@).take(i as int)));
    }
    assert(rows_view(table@).take(table@.len() as int) =~= rows_view(table@));
    r
}

/// Paths `bl init` writes to the workspace checkout's `.gitignore`: every
/// runtime path, dropping the ones absent under stealth.
pub fn gitignore_paths(is_stealth: bool) -> (r: Vec<&'static str>)
    ensures
        strs_view(r@) == select_gitignore(spec_table(), is_stealth),
{
    let table = runtime_paths();
    let mut r: Vec<&'static str> = Vec::new();
    let mut i: usize = 0;
    while i < table.len()
        invariant
            i <= table@.len(),
            rows_view(table@) == spec_table(),
            strs_view(r@) == select_gitignore(rows_view(table@).take(i as int), is_stealth),
        decreases table@.len() - i,
    {
        proof {
            assert(rows_view(table@).take(i + 1).drop_last() =~= rows_view(table@).take(i as int));
        }
        if table[i].in_stealth || !is_stealth {
            r.push(table[i].rel);
        }
        i += 1;
        assert(strs_view(r@) =~= select_gitignore(rows_view(table@).take(i as int), is_stealth));
    }
    assert(rows_view(table@).take(table@.len() as int) =~= rows_view(table@));
    r
}

proof fn lemma_select_backstop_sub(rows: Seq<(Seq<char>, bool, bool)>, p: Seq<char>)
    ensures
        select_backstop(rows).contains(p) ==> select_gitignore(rows, false).contains(p),
        select_gitignore(rows, true).contains(p) ==> select_gitignore(rows, false).contains(p),
        select_gitignore(rows, false).contains(p) ==> exists|i: int| 0 <= i < rows.len() && #[trigger] rows[i].0 == p,
    decreases rows.len(),
{
    if rows.len() > 0 {
        let d = rows.drop_last();
        lemma_select_backstop_sub(d, p);
        let b = select_backstop(d);
        let g = select_gitignore(d, false);
        let s = select_gitignore(d, true);
        let x = rows.last().0;
        assert(b.push(x).contains(p) ==> (b.contains(p) || p == x)) by {
            if b.push(x).contains(p) {
                let k = choose|k: int| 0 <= k < b.push(x).len() && b.push(x)[k] == p;
                if k < b.len() { assert(b[k] == p); }
            }
        }
        assert(s.push(x).contains(p) ==> (s.contains(p) || p == x)) by {
            if s.push(x).contains(p) {
                let k = choose|k: int| 0 <= k < s.push(x).len() && s.push(x)[k] == p;
                if k < s.len() { assert(s[k] == p); }
            }
        }
        assert(g.push(x).contains(p) ==> (g.contains(p) || p == x)) by {
            if g.push(x).contains(p) {
                let k = choose|k: int| 0 <= k < g.push(x).len() && g.push(x)[k] == p;
                if k < g.len() { assert(g[k] == p); }
            }
        }
        assert(g.contains(p) ==> g.push(x).contains(p)) by {
            if g.contains(p) {
                let k = choose|k: int| 0 <= k < g.len() && g[k] == p;
                assert(g.push(x)[k] == p);
            }
        }
        assert(g.push(x).contains(x)) by {
            assert(g.push(x)[g.len() as int] == x);
        }
        if g.contains(p) {
            let i = choose|i: int| 0 <= i < d.len() && #[trigger] d[i].0 == p;
            assert(rows[i].0 == p);
        }
        if p == x {
            assert(rows[rows.len() - 1].0 == p);
        }
    }
}

/// Every path the backstop covers is also gitignored; the stealth
/// `.gitignore` is a subset of the full one; and the committed
/// `.balls/config.json` is never a runtime path.
pub proof fn runtime_paths_consistent(p: Seq<char>)
    ensures
        select_backstop(spec_table()).contains(p) ==> select_gitignore(spec_table(), false).contains(p),
        select_gitignore(spec_table(), true).contains(p) ==> select_gitignore(spec_table(), false).contains(p),
        !select_backstop(spec_table()).contains(".balls/config.json"@),
        !select_gitignore(spec_table(), false).contains(".balls/config.json"@),
        !select_gitignore(spec_table(), true).contains(".balls/config.json"@),
{
    lemma_select_backstop_sub(spec_table(), p);
    let c = ".balls/config.json"@;
    lemma_select_backstop_sub(spec_table(), c);
    reveal_strlit(".balls/config.json");
    reveal_strlit(".balls/local");
    reveal_strlit(".balls/tasks");
    reveal_strlit(".balls/project.json");
    reveal_strlit(".balls/state-repo");
    reveal_strlit(".balls/plugins");
    reveal_strlit(".balls/code-refs");
    reveal_strlit(".balls-worktrees");
    assert forall|i: int| 0 <= i < spec_table().len() implies #[trigger] spec_table()[i].0 != c by {
        if i == 0 { assert(spec_table()[i].0.len() != c.len()); }
        if i == 1 { assert(spec_table()[i].0.len() != c.len()); }
        if i == 2 { assert(spec_table()[i].0[7] != c[7]); }
        if i == 3 { assert(spec_table()[i].0.len() != c.len()); }
        if i == 4 { assert(spec_table()[i].0.len() != c.len()); }
        if i == 5 { assert(spec_table()[i].0.len() != c.len()); }
        if i == 6 { assert(spec_table()[i].0[6] != c[6]); }
    }
}

} // verus!
