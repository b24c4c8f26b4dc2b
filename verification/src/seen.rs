//! The stale-read close guard: a seen-token compare-and-swap on task content.
//!
//! `bl close <id>` refuses iff the task file changed since the closer's own
//! last touch of it (found in the store branch's history by the `bl-actor`
//! trailer) and no token acknowledging the current content is found. The
//! refusal prints the unseen diff and mints the token itself, so a bare retry
//! passes. A token is a file named for the ball id holding the task file's
//! blob id; its home is the current work worktree's own gitdir when standing
//! in one, else the store clone's gitdir.
//!
//! Running git and touching token files is the caller's; the decisions are
//! here.

use vstd::prelude::*;
use crate::path::{join, spec_join};
use crate::text::{
    chars_of, concat, lines_of, owned, seq_eq, spec_lines, spec_split_once, spec_starts_with,
    spec_trim, split_once, starts_with, str_eq, string_of, trim, trim_chars,
};

verus! {

/// An optional string as an optional sequence.
pub open spec fn string_opt(o: Option<String>) -> Option<Seq<char>> {
    match o {
        Some(s) => Some(s@),
        None => None,
    }
}

/// An optional string slice as an optional sequence.
pub open spec fn str_opt(o: Option<&str>) -> Option<Seq<char>> {
    match o {
        Some(s) => Some(s@),
        None => None,
    }
}

/// The token directory inside a gitdir bl owns.
pub open spec fn spec_token_dir() -> Seq<char> {
    "balls-seen"@
}

/// `<home>/balls-seen/<id>`: where a token for `id` lives in `home`.
pub fn token_path(home: &str, id: &str) -> (r: String)
    ensures
        r@ == spec_join(spec_join(home@, spec_token_dir()), id@),
{
    let d = join(home, "balls-seen");
    join(d.as_str(), id)
}

/// `tasks/<id>.md`: the task file's path in the store tree.
pub open spec fn spec_task_file(id: Seq<char>) -> Seq<char> {
    "tasks/"@ + id + ".md"@
}

/// The task file's path in the store tree.
pub fn task_file(id: &str) -> (r: String)
    ensures
        r@ == spec_task_file(id@),
{
    let mut r = concat("tasks/", id);
    r.append(".md");
    r
}

/// `<treeish>:tasks/<id>.md`: the revision naming the task file's blob at a
/// tree-ish.
pub fn blob_rev(treeish: &str, id: &str) -> (r: String)
    ensures
        r@ == treeish@ + ":"@ + spec_task_file(id@),
{
    let mut r = concat(treeish, ":");
    r.append(task_file(id).as_str());
    r
}

/// The sha of the first log line `<sha>\x1f<actors>` whose trimmed actors are
/// exactly `actor`, reading from the front.
pub open spec fn spec_anchor(lines: Seq<Seq<char>>, actor: Seq<char>) -> Option<Seq<char>>
    decreases lines.len(),
{
    if lines.len() == 0 {
        None
    } else {
        match spec_split_once(lines[0], '\u{1f}') {
            Some((sha, by)) if spec_trim(by) == actor => Some(sha),
            _ => spec_anchor(lines.skip(1), actor),
        }
    }
}

/// The closer's anchor from `git log --format=%H%x1f<bl-actor trailers>` over
/// the task file: the newest commit whose `bl-actor` trailer is `actor` — the
/// closer's own last touch. `None` for a closer who never touched the ball.
pub fn anchor_from_log(log: &str, actor: &str) -> (r: Option<String>)
    ensures
        r matches Some(s) ==> spec_anchor(spec_lines(log@), actor@) == Some(s@),
        r is None ==> spec_anchor(spec_lines(log@), actor@) is None,
{
    let lines = lines_of(&chars_of(log));
    let ghost ls = spec_lines(log@);
    let who = chars_of(actor);
    let mut i: usize = 0;
    assert(ls.skip(0) =~= ls);
    while i < lines.len()
        invariant
            i <= lines@.len(),
            ls == spec_lines(log@),
            lines@.len() == ls.len(),
            forall|j: int| 0 <= j < lines@.len() ==> #[trigger] lines@[j]@ == ls[j],
            who@ == actor@,
            spec_anchor(ls, actor@) == spec_anchor(ls.skip(i as int), actor@),
        decreases lines@.len() - i,
    {
        proof {
            assert(ls.skip(i as int)[0] == ls[i as int]);
            assert(ls.skip(i as int).skip(1) =~= ls.skip(i + 1));
        }
        match split_once(&lines[i], '\u{1f}') {
            Some((sha, by)) => {
                let tb = trim_chars(&by);
                if seq_eq(&tb, &who) {
                    proof {
                        let rest = ls.skip(i as int);
                        assert(rest.len() > 0);
                        assert(rest[0] == lines@[i as int]@);
                        assert(spec_split_once(rest[0], '\u{1f}') == Some((sha@, by@)));
                        assert(spec_trim(by@) == actor@);
                        assert(spec_anchor(rest, actor@) == Some(sha@));
                    }
                    return Some(string_of(&sha));
                }
            },
            None => {},
        }
        i += 1;
    }
    proof {
        assert(ls.skip(lines@.len() as int) =~= Seq::<Seq<char>>::empty());
    }
    None
}

/// The current checkout's admin gitdir iff the invocation stands in a
/// `work/<id>` worktree: `head` (the checked-out branch, `None` when git could
/// not say) starts with `work/` once trimmed, and the checkout is a linked
/// worktree — its gitdir differs from the common dir.
pub open spec fn spec_work_gitdir(
    head: Option<Seq<char>>,
    dir: Option<Seq<char>>,
    common: Option<Seq<char>>,
) -> Option<Seq<char>> {
    match (head, dir, common) {
        (Some(h), Some(d), Some(c)) => if spec_starts_with(spec_trim(h), "work/"@) && d != c {
            Some(d)
        } else {
            None
        },
        _ => None,
    }
}

/// See [`spec_work_gitdir`].
pub fn work_gitdir(head: Option<&str>, dir: Option<String>, common: Option<String>) -> (r: Option<String>)
    ensures
        r matches Some(s) ==> spec_work_gitdir(str_opt(head), string_opt(dir), string_opt(common))
            == Some(s@),
        r is None ==> spec_work_gitdir(str_opt(head), string_opt(dir), string_opt(common))
            is None,
{
    let h = match head {
        Some(h) => h,
        None => return None,
    };
    let d = match dir {
        Some(d) => d,
        None => return None,
    };
    let c = match common {
        Some(c) => c,
        None => return None,
    };
    let t = trim(h);
    if starts_with(&chars_of(t.as_str()), &chars_of("work/")) && !str_eq(d.as_str(), c.as_str()) {
        Some(d)
    } else {
        None
    }
}

/// The homes close consults for a token, in order and without repeats: the
/// store gitdir; the task's own worktree admin dir,
/// `<common gitdir>/worktrees/<id>`, when the invocation's common gitdir is
/// known; and the current work-worktree gitdir when standing in one.
pub open spec fn spec_homes(store_gitdir: Seq<char>, common: Option<Seq<char>>, work: Option<Seq<char>>, id: Seq<char>) -> Seq<Seq<char>> {
    let first = seq![store_gitdir];
    let with_common = match common {
        Some(c) => add_new(first, spec_join(spec_join(c, "worktrees"@), id)),
        None => first,
    };
    match work {
        Some(w) => add_new(with_common, w),
        None => with_common,
    }
}

/// `s` with `x` appended unless already present.
pub open spec fn add_new(s: Seq<Seq<char>>, x: Seq<char>) -> Seq<Seq<char>> {
    if s.contains(x) { s } else { s.push(x) }
}

fn push_new(v: &mut Vec<String>, x: String)
    ensures
        final(v)@.map_values(|s: String| s@) == add_new(old(v)@.map_values(|s: String| s@), x@),
{
    let mut i: usize = 0;
    while i < v.len()
        invariant
            i <= v@.len(),
            v@ == old(v)@,
            forall|j: int| 0 <= j < i ==> #[trigger] v@[j]@ != x@,
        decreases v@.len() - i,
    {
        if str_eq(v[i].as_str(), x.as_str()) {
            proof {
                assert(v@.map_values(|s: String| s@)[i as int] == x@);
            }
            return;
        }
        i += 1;
    }
    proof {
        let vs = v@.map_values(|s: String| s@);
        assert(!vs.contains(x@)) by {
            if vs.contains(x@) {
                let k = choose|k: int| 0 <= k < vs.len() && #[trigger] vs[k] == x@;
                assert(v@[k]@ == x@);
            }
        }
    }
    v.push(x);
    proof {
        assert(v@.map_values(|s: String| s@) =~= old(v)@.map_values(|s: String| s@).push(x@));
    }
}

/// The token homes close consults; see [`spec_homes`].
pub fn homes(store_gitdir: String, common: Option<String>, work: Option<String>, id: &str) -> (r: Vec<String>)
    ensures
        r@.map_values(|s: String| s@) == spec_homes(
            store_gitdir@,
            string_opt(common),
            string_opt(work),
            id@,
        ),
{
    let ghost g = store_gitdir@;
    let mut v: Vec<String> = Vec::new();
    v.push(store_gitdir);
    proof {
        assert(v@.map_values(|s: String| s@) =~= seq![g]);
    }
    match common {
        Some(c) => {
            let wt = join(c.as_str(), "worktrees");
            push_new(&mut v, join(wt.as_str(), id));
        },
        None => {},
    }
    match work {
        Some(w) => push_new(&mut v, w),
        None => {},
    }
    v
}

/// The token paths whose content, trimmed, is the current blob `cur`:
/// `candidates` pairs each token path with what reading it gave (`None` when
/// it could not be read).
pub open spec fn spec_seen(cur: Seq<char>, candidates: Seq<(Seq<char>, Option<Seq<char>>)>) -> Seq<Seq<char>>
    decreases candidates.len(),
{
    if candidates.len() == 0 {
        Seq::empty()
    } else {
        let rest = spec_seen(cur, candidates.drop_last());
        let (p, c) = candidates.last();
        match c {
            Some(c) => if spec_trim(c) == cur { rest.push(p) } else { rest },
            None => rest,
        }
    }
}

pub open spec fn candidates_v(cs: Seq<(String, Option<String>)>) -> Seq<(Seq<char>, Option<Seq<char>>)> {
    cs.map_values(|pc: (String, Option<String>)| (pc.0@, string_opt(pc.1)))
}

/// The tokens that acknowledge the current content `cur`; see [`spec_seen`].
pub fn seen_tokens(cur: &str, candidates: Vec<(String, Option<String>)>) -> (r: Vec<String>)
    ensures
        r@.map_values(|s: String| s@) == spec_seen(cur@, candidates_v(candidates@)),
{
    let mut r: Vec<String> = Vec::new();
    let mut i: usize = 0;
    let ghost cv = candidates_v(candidates@);
    while i < candidates.len()
        invariant
            i <= candidates@.len(),
            cv == candidates_v(candidates@),
            r@.map_values(|s: String| s@) == spec_seen(cur@, cv.take(i as int)),
        decreases candidates@.len() - i,
    {
        proof {
            assert(cv.take(i + 1).drop_last() =~= cv.take(i as int));
        }
        let (p, c) = &candidates[i];
        match c {
            Some(c) => {
                if str_eq(trim(c.as_str()).as_str(), cur) {
                    let ghost before = r@.map_values(|s: String| s@);
                    r.push(owned(p.as_str()));
                    proof {
                        assert(r@.map_values(|s: String| s@) =~= before.push(p@));
                    }
                }
            },
            None => {},
        }
        i += 1;
    }
    proof {
        assert(cv.take(candidates@.len() as int) =~= cv);
    }
    r
}

/// The refusal when the task file is missing from the store tip.
pub open spec fn spec_not_at_tip(id: Seq<char>) -> Seq<char> {
    "close "@ + id + ": "@ + spec_task_file(id)
        + " is not at the store tip — the store checkout is out of step; run `bl prime`"@
}

/// See [`spec_not_at_tip`].
pub fn not_at_tip(id: &str) -> (r: String)
    ensures
        r@ == spec_not_at_tip(id@),
{
    let mut r = concat("close ", id);
    r.append(": ");
    r.append(task_file(id).as_str());
    r.append(" is not at the store tip — the store checkout is out of step; run `bl prime`");
    r
}

/// The refusal carrying the unseen diff; the token it mints makes a bare
/// retry pass.
pub open spec fn spec_refusal(id: Seq<char>, diff: Seq<char>) -> Seq<char> {
    "close "@ + id + ": "@ + spec_task_file(id) + " changed since your last touch of it — the unseen diff:\n\n"@
        + diff + "\nthe diff above is now acknowledged; re-run `bl close "@ + id
        + "` to seal exactly this content (a further edit refuses again with its own diff)"@
}

/// See [`spec_refusal`].
pub fn refusal(id: &str, diff: &str) -> (r: String)
    ensures
        r@ == spec_refusal(id@, diff@),
{
    let mut r = concat("close ", id);
    r.append(": ");
    r.append(task_file(id).as_str());
    r.append(" changed since your last touch of it — the unseen diff:\n\n");
    r.append(diff);
    r.append("\nthe diff above is now acknowledged; re-run `bl close ");
    r.append(id);
    r.append("` to seal exactly this content (a further edit refuses again with its own diff)");
    r
}

/// What the guard decides before any token is read.
#[derive(Debug)]
pub enum Guard {
    /// The task file is not at the store tip: refuse with this message.
    Refuse(String),
    /// Unchanged since the closer's own last touch: pass, consuming nothing.
    Pass,
    /// Changed: look for tokens acknowledging the current blob.
    Look { cur: String },
}

/// The close-side check: `cur` is the task file's blob at the store tip
/// (`None` when absent there) and `at_anchor` its blob at the closer's anchor
/// commit (`None` with no anchor, or no file there).
pub fn guard(id: &str, cur: Option<String>, at_anchor: Option<String>) -> (r: Guard)
    ensures
        match cur {
            None => r matches Guard::Refuse(m) && m@ == spec_not_at_tip(id@),
            Some(c) => match at_anchor {
                Some(a) if a@ == c@ => r is Pass,
                _ => r matches Guard::Look { cur: c2 } && c2@ == c@,
            },
        },
{
    match cur {
        None => Guard::Refuse(not_at_tip(id)),
        Some(c) => {
            let same = match &at_anchor {
                Some(a) => str_eq(a.as_str(), c.as_str()),
                None => false,
            };
            if same {
                Guard::Pass
            } else {
                Guard::Look { cur: c }
            }
        },
    }
}

} // verus!

verus! {

/// What a token file holds: the acknowledged blob id and a newline.
pub fn token_content(blob: &str) -> (r: String)
    ensures
        r@ == blob@.push('\n'),
{
    let mut r = owned(blob);
    crate::text::push_char(&mut r, '\n');
    r
}

proof fn lemma_trim_token(cur: Seq<char>)
    requires
        cur.len() > 0,
        !crate::text::spec_whitespace(cur[0]),
        !crate::text::spec_whitespace(cur.last()),
    ensures
        spec_trim(cur.push('\n')) == cur,
{
    let t = cur.push('\n');
    assert(crate::text::trim_start(t) == t);
    assert(t.drop_last() =~= cur);
    assert(crate::text::trim_end(t) == crate::text::trim_end(cur));
    assert(crate::text::trim_end(cur) == cur);
}

/// The token a refusal mints acknowledges exactly the refused content: a bare
/// retry against the same blob finds it, and a further edit (a different
/// blob) does not, so it refuses again. Blob ids carry no surrounding
/// whitespace.
pub proof fn a_minted_token_admits_exactly_the_refused_content(cur: Seq<char>, later: Seq<char>, path: Seq<char>)
    requires
        cur.len() > 0,
        !crate::text::spec_whitespace(cur[0]),
        !crate::text::spec_whitespace(cur.last()),
    ensures
        spec_seen(cur, seq![(path, Some(cur.push('\n')))]) == seq![path],
        later != cur ==> spec_seen(later, seq![(path, Some(cur.push('\n')))]) == Seq::<Seq<char>>::empty(),
{
    lemma_trim_token(cur);
    let cs = seq![(path, Some(cur.push('\n')))];
    let none = Seq::<(Seq<char>, Option<Seq<char>>)>::empty();
    assert(cs.drop_last() =~= none);
    assert(spec_seen(cur, none) == Seq::<Seq<char>>::empty());
    assert(spec_seen(later, none) == Seq::<Seq<char>>::empty());
    assert(cs.last() == (path, Some(cur.push('\n'))));
    assert(spec_seen(cur, cs) =~= seq![path]);
}

} // verus!

verus! {

/// Whatever other token files there are, one minted for the refused blob is
/// found on the retry: it joins exactly the tokens the others already
/// admitted. Blob ids carry no surrounding whitespace.
pub proof fn a_minted_token_is_found_among_any_others(
    cur: Seq<char>,
    others: Seq<(Seq<char>, Option<Seq<char>>)>,
    path: Seq<char>,
)
    requires
        cur.len() > 0,
        !crate::text::spec_whitespace(cur[0]),
        !crate::text::spec_whitespace(cur.last()),
    ensures
        spec_seen(cur, others.push((path, Some(cur.push('\n'))))) == spec_seen(cur, others).push(path),
{
    lemma_trim_token(cur);
    let cs = others.push((path, Some(cur.push('\n'))));
    assert(cs.drop_last() =~= others);
    assert(cs.last() == (path, Some(cur.push('\n'))));
}

} // verus!
