//! The merging queue: order as a query over git tags.
//!
//! A ball enters the queue by planting an annotated tag `merging/<id>` on the
//! tip of its `work/<id>` branch. That one ref carries membership (the tag
//! exists), position (the taggerdate, refname breaking ties) and the seal (the
//! tag's target). A branch that moves past its tag is unsealed by derivation.
//! Listing refs and planting tags are the caller's I/O; this module holds the
//! ref names, the parsing of listings, and the derivations made from them.

use vstd::prelude::*;
use crate::gitout::{GitOutput, failure_message, ok_stdout, spec_ok_stdout};
use crate::text::{
    chars_of, concat, debug_quoted, lines_of, owned, seq_eq, spec_lines, spec_split_once,
    spec_trim, split_once, starts_with, str_debug, string_of, skip_chars, strip_prefix_or_self,
    trim_chars,
};

verus! {

/// One queue entry, as derived from a `merging/<id>` tag.
pub struct Entry {
    /// The ball id: the tag name with `merging/` stripped.
    pub id: String,
    /// The sealed commit: the tag's peeled target.
    pub tip: String,
    /// True iff `work/<id>` still points at the sealed commit.
    pub sealed: bool,
}

/// `refs/heads/work/<id>`.
pub fn work_ref(id: &str) -> (r: String)
    ensures
        r@ == "refs/heads/work/"@ + id@,
{
    concat("refs/heads/work/", id)
}

/// `merging/<id>`.
pub fn merging_tag(id: &str) -> (r: String)
    ensures
        r@ == "merging/"@ + id@,
{
    concat("merging/", id)
}

/// Read the `git rev-parse --verify refs/heads/work/<id>` that [`enqueue`]
/// resolves before sealing: the tip to seal, or the refusal in git's voice.
pub fn enqueue(resolved: &GitOutput) -> (r: Result<String, String>)
    ensures
        r matches Ok(s) ==> spec_ok_stdout(*resolved, "git rev-parse work branch"@) == Ok::<Seq<char>, Seq<char>>(s@),
        r matches Err(e) ==> spec_ok_stdout(*resolved, "git rev-parse work branch"@) == Err::<Seq<char>, Seq<char>>(e@),
{
    ok_stdout(resolved, "git rev-parse work branch")
}

/// Read the `git tag -d merging/<id>` of [`dequeue`]: dequeuing an absent
/// entry is loud.
pub fn dequeue(out: &GitOutput) -> (r: Result<(), String>)
    ensures
        r is Ok <==> out.success,
        r matches Err(e) ==> e@ == failure_message("git tag -d"@, out.stderr@),
{
    match ok_stdout(out, "git tag -d") {
        Ok(_) => Ok(()),
        Err(e) => Err(e),
    }
}

/// A listing line `<name> <oid>` split at its first space, with `prefix`
/// stripped from the name when present; a line without a space is an error.
pub open spec fn spec_listing_line(line: Seq<char>, prefix: Seq<char>) -> Result<(Seq<char>, Seq<char>), Seq<char>> {
    match spec_split_once(line, ' ') {
        Some((name, tip)) => Ok((strip_prefix_or_self(name, prefix), tip)),
        None => Err("unparseable for-each-ref line: "@ + str_debug(line)),
    }
}

fn listing_line(line: &[char], prefix: &str) -> (r: Result<(Vec<char>, Vec<char>), String>)
    ensures
        r matches Ok((a, b)) ==> spec_listing_line(line@, prefix@) == Ok::<(Seq<char>, Seq<char>), Seq<char>>((a@, b@)),
        r matches Err(e) ==> spec_listing_line(line@, prefix@) == Err::<(Seq<char>, Seq<char>), Seq<char>>(e@),
{
    match split_once(line, ' ') {
        Some((name, tip)) => {
            let p = chars_of(prefix);
            let id = if starts_with(&name, &p) { skip_chars(&name, p.len()) } else { name };
            Ok((id, tip))
        },
        None => {
            let shown = string_of(line);
            let quoted = debug_quoted(shown.as_str());
            Err(concat("unparseable for-each-ref line: ", quoted.as_str()))
        },
    }
}

/// Parse one line of the `work/` branch listing (`<refname:short> <oid>`) into
/// `(id, tip)`.
pub fn work_tip(line: &str) -> (r: Result<(String, String), String>)
    ensures
        r matches Ok((a, b)) ==> spec_listing_line(line@, "work/"@) == Ok::<(Seq<char>, Seq<char>), Seq<char>>((a@, b@)),
        r matches Err(e) ==> spec_listing_line(line@, "work/"@) == Err::<(Seq<char>, Seq<char>), Seq<char>>(e@),
{
    let cs = chars_of(line);
    match listing_line(&cs, "work/") {
        Ok((a, b)) => Ok((string_of(&a), string_of(&b))),
        Err(e) => Err(e),
    }
}

/// Parse the `merging/` tag listing (`<refname:short> <peeled oid>` per line,
/// already in queue order) into `(id, sealed tip)` pairs, refusing at the
/// first unparseable line.
pub open spec fn spec_queue_lines(lines: Seq<Seq<char>>) -> Result<Seq<(Seq<char>, Seq<char>)>, Seq<char>>
    decreases lines.len(),
{
    if lines.len() == 0 {
        Ok(Seq::empty())
    } else {
        match spec_queue_lines(lines.drop_last()) {
            Err(e) => Err(e),
            Ok(done) => match spec_listing_line(lines.last(), "merging/"@) {
                Ok(pair) => Ok(done.push(pair)),
                Err(e) => Err(e),
            },
        }
    }
}

pub open spec fn pairs_view(v: Seq<(String, String)>) -> Seq<(Seq<char>, Seq<char>)> {
    v.map_values(|p: (String, String)| (p.0@, p.1@))
}

/// The queue as listed, in position order: `(id, sealed tip)` per
/// `merging/*` tag. Each still has to be checked against its live
/// `work/<id>` tip ([`entry`]).
pub fn queue(listing: &str) -> (r: Result<Vec<(String, String)>, String>)
    ensures
        r matches Ok(v) ==> spec_queue_lines(spec_lines(listing@)) == Ok::<Seq<(Seq<char>, Seq<char>)>, Seq<char>>(pairs_view(v@)),
        r matches Err(e) ==> spec_queue_lines(spec_lines(listing@)) == Err::<Seq<(Seq<char>, Seq<char>)>, Seq<char>>(e@),
{
    let text = chars_of(listing);
    let lines = lines_of(&text);
    let ghost ls = spec_lines(listing@);
    let mut out: Vec<(String, String)> = Vec::new();
    assert(pairs_view(out@) =~= Seq::<(Seq<char>, Seq<char>)>::empty());
    assert(ls.take(0) =~= Seq::<Seq<char>>::empty());
    let mut i: usize = 0;
    while i < lines.len()
        invariant
            i <= lines@.len(),
            lines@.len() == ls.len(),
            ls == spec_lines(listing@),
            forall|j: int| 0 <= j < lines@.len() ==> #[trigger] lines@[j]@ == ls[j],
            spec_queue_lines(ls.take(i as int)) == Ok::<Seq<(Seq<char>, Seq<char>)>, Seq<char>>(pairs_view(out@)),
        decreases lines@.len() - i,
    {
        proof {
            assert(ls.take(i + 1).drop_last() =~= ls.take(i as int));
            assert(ls.take(i + 1).last() == lines@[i as int]@);
        }
        match listing_line(&lines[i], "merging/") {
            Ok((a, b)) => {
                let ghost before = pairs_view(out@);
                out.push((string_of(&a), string_of(&b)));
                assert(pairs_view(out@) =~= before.push((a@, b@)));
            },
            Err(e) => {
                proof {
                    assert(spec_queue_lines(ls.take(i + 1)) == Err::<Seq<(Seq<char>, Seq<char>)>, Seq<char>>(e@));
                    lemma_queue_stops(ls, i as int + 1);
                    assert(spec_queue_lines(ls) == Err::<Seq<(Seq<char>, Seq<char>)>, Seq<char>>(e@));
                    assert(ls == spec_lines(listing@));
                }
                return Err(e);
            },
        }
        i += 1;
    }
    assert(ls.take(ls.len() as int) =~= ls);
    Ok(out)
}

/// Once a prefix of the listing fails to parse, the whole listing does, with
/// the same error.
proof fn lemma_queue_stops(lines: Seq<Seq<char>>, n: int)
    requires
        0 <= n <= lines.len(),
        spec_queue_lines(lines.take(n)) is Err,
    ensures
        spec_queue_lines(lines) == spec_queue_lines(lines.take(n)),
    decreases lines.len() - n,
{
    if n == lines.len() {
        assert(lines.take(n) =~= lines);
    } else {
        assert(lines.take(n + 1).drop_last() =~= lines.take(n));
        lemma_queue_stops(lines, n + 1);
    }
}

/// Derive an entry's seal from `git rev-parse --verify --quiet
/// refs/heads/work/<id>`: sealed iff the branch resolves, to exactly the
/// sealed tip.
pub fn entry(id: String, tip: String, branch: &GitOutput) -> (e: Entry)
    ensures
        e.id == id,
        e.tip == tip,
        e.sealed == (branch.success && spec_trim(branch.stdout@) == tip@),
{
    let sealed = branch.success && {
        let live = trim_chars(&chars_of(branch.stdout.as_str()));
        let want = chars_of(tip.as_str());
        seq_eq(&live, &want)
    };
    Entry { id, tip, sealed }
}

/// The arguments of the queue listing: every `merging/*` tag as
/// `<refname:short> <peeled oid>`, sorted by tagger date with ties broken
/// by tag name (git sorts by the last `--sort` key first).
pub fn queue_listing_args() -> (r: Vec<String>)
    ensures
        r@.map_values(|s: String| s@) == seq![
            "for-each-ref"@,
            "--sort=refname"@,
            "--sort=taggerdate"@,
            "--format=%(refname:short) %(*objectname)"@,
            "refs/tags/merging/"@,
        ],
{
    let r = vec![
        owned("for-each-ref"),
        owned("--sort=refname"),
        owned("--sort=taggerdate"),
        owned("--format=%(refname:short) %(*objectname)"),
        owned("refs/tags/merging/"),
    ];
    assert(r@.map_values(|s: String| s@) =~= seq![
        "for-each-ref"@,
        "--sort=refname"@,
        "--sort=taggerdate"@,
        "--format=%(refname:short) %(*objectname)"@,
        "refs/tags/merging/"@,
    ]);
    r
}

/// The arguments of the annotated tag that seals `target` as `merging/<id>`,
/// replacing any earlier tag (so re-enqueue is requeue at the bottom).
pub fn seal_args(id: &str, target: &str) -> (r: Vec<String>)
    ensures
        r@.map_values(|s: String| s@) == seq![
            "-c"@,
            "user.name=bl-speculate"@,
            "-c"@,
            "user.email=speculate@balls"@,
            "tag"@,
            "--force"@,
            "-a"@,
            "-m"@,
            "sealed for the merge queue (bl-24e7)"@,
            "merging/"@ + id@,
            target@,
        ],
{
    let r = vec![
        owned("-c"),
        owned("user.name=bl-speculate"),
        owned("-c"),
        owned("user.email=speculate@balls"),
        owned("tag"),
        owned("--force"),
        owned("-a"),
        owned("-m"),
        owned("sealed for the merge queue (bl-24e7)"),
        merging_tag(id),
        owned(target),
    ];
    assert(r@.map_values(|s: String| s@) =~= seq![
        "-c"@,
        "user.name=bl-speculate"@,
        "-c"@,
        "user.email=speculate@balls"@,
        "tag"@,
        "--force"@,
        "-a"@,
        "-m"@,
        "sealed for the merge queue (bl-24e7)"@,
        "merging/"@ + id@,
        target@,
    ]);
    r
}

/// The `(id, tip)` pairs of the sealed entries.
pub open spec fn sealed_pairs(entries: Seq<Entry>) -> Seq<(Seq<char>, Seq<char>)>
    decreases entries.len(),
{
    if entries.len() == 0 {
        Seq::empty()
    } else {
        let p = sealed_pairs(entries.drop_last());
        if entries.last().sealed { p.push((entries.last().id@, entries.last().tip@)) } else { p }
    }
}

/// Which listed `work/` tips to seal, in listing order, skipping every tip
/// already sealed at exactly that commit; `Err` stops at the first
/// unparseable line, after the seals planned before it.
pub open spec fn spec_adopt(sealed: Seq<(Seq<char>, Seq<char>)>, lines: Seq<Seq<char>>) -> (Seq<(Seq<char>, Seq<char>)>, Option<Seq<char>>)
    decreases lines.len(),
{
    if lines.len() == 0 {
        (Seq::empty(), None)
    } else {
        let (done, err) = spec_adopt(sealed, lines.drop_last());
        if err is Some {
            (done, err)
        } else {
            match spec_listing_line(lines.last(), "work/"@) {
                Err(e) => (done, Some(e)),
                Ok(pair) => if sealed.contains(pair) { (done, None) } else { (done.push(pair), None) },
            }
        }
    }
}

fn pair_listed(entries: &Vec<Entry>, id: &[char], tip: &[char]) -> (r: bool)
    ensures
        r == sealed_pairs(entries@).contains((id@, tip@)),
{
    let mut i: usize = 0;
    let mut found = false;
    while i < entries.len()
        invariant
            i <= entries@.len(),
            found == sealed_pairs(entries@.take(i as int)).contains((id@, tip@)),
        decreases entries@.len() - i,
    {
        let e = &entries[i];
        let ghost pre = sealed_pairs(entries@.take(i as int));
        proof {
            assert(entries@.take(i + 1).drop_last() =~= entries@.take(i as int));
        }
        let hit = e.sealed && seq_eq(&chars_of(e.id.as_str()), id) && seq_eq(&chars_of(e.tip.as_str()), tip);
        proof {
            let x = (e.id@, e.tip@);
            if e.sealed {
                assert(pre.push(x).contains((id@, tip@)) <==> (pre.contains((id@, tip@)) || x == (id@, tip@))) by {
                    if pre.push(x).contains((id@, tip@)) {
                        let k = choose|k: int| 0 <= k < pre.push(x).len() && pre.push(x)[k] == (id@, tip@);
                        if k < pre.len() { assert(pre[k] == (id@, tip@)); }
                    }
                    if pre.contains((id@, tip@)) {
                        let k = choose|k: int| 0 <= k < pre.len() && pre[k] == (id@, tip@);
                        assert(pre.push(x)[k] == (id@, tip@));
                    }
                    if x == (id@, tip@) { assert(pre.push(x)[pre.len() as int] == x); }
                }
            }
        }
        found = found || hit;
        i += 1;
    }
    assert(entries@.take(entries@.len() as int) =~= entries@);
    found
}

/// Adopt every quiet `work/<id>` tip into the queue: given the current queue
/// entries and the `for-each-ref` listing of `refs/heads/work/`, the seals to
/// plant (in listing order) for each branch not already sealed at its tip, and
/// the error of the first unparseable listing line, if any, which the caller
/// reports after planting the seals planned before it. Idempotent by the skip:
/// a tip already sealed keeps its position.
pub fn adopt(entries: &Vec<Entry>, listing: &str) -> (r: (Vec<(String, String)>, Option<String>))
    ensures
        pairs_view(r.0@) == spec_adopt(sealed_pairs(entries@), spec_lines(listing@)).0,
        match spec_adopt(sealed_pairs(entries@), spec_lines(listing@)).1 {
            Some(e) => r.1 matches Some(m) && m@ == e,
            None => r.1 is None,
        },
{
    let text = chars_of(listing);
    let lines = lines_of(&text);
    let ghost ls = spec_lines(listing@);
    let ghost sealed = sealed_pairs(entries@);
    let mut out: Vec<(String, String)> = Vec::new();
    assert(pairs_view(out@) =~= Seq::<(Seq<char>, Seq<char>)>::empty());
    assert(ls.take(0) =~= Seq::<Seq<char>>::empty());
    let mut i: usize = 0;
    while i < lines.len()
        invariant
            i <= lines@.len(),
            lines@.len() == ls.len(),
            ls == spec_lines(listing@),
            sealed == sealed_pairs(entries@),
            forall|j: int| 0 <= j < lines@.len() ==> #[trigger] lines@[j]@ == ls[j],
            spec_adopt(sealed, ls.take(i as int)) == (pairs_view(out@), None::<Seq<char>>),
        decreases lines@.len() - i,
    {
        proof {
            assert(ls.take(i + 1).drop_last() =~= ls.take(i as int));
            assert(ls.take(i + 1).last() == lines@[i as int]@);
        }
        match listing_line(&lines[i], "work/") {
            Err(e) => {
                proof {
                    assert(spec_adopt(sealed, ls.take(i + 1)) == (pairs_view(out@), Some(e@)));
                    lemma_adopt_stops(sealed, ls, i as int + 1);
                }
                return (out, Some(e));
            },
            Ok((id, tip)) => {
                if !pair_listed(entries, &id, &tip) {
                    let ghost before = pairs_view(out@);
                    out.push((string_of(&id), string_of(&tip)));
                    assert(pairs_view(out@) =~= before.push((id@, tip@)));
                }
            },
        }
        i += 1;
    }
    assert(ls.take(ls.len() as int) =~= ls);
    (out, None)
}

/// Once a prefix of the listing stops on an error, longer prefixes stop there
/// too, with the same seals planned.
proof fn lemma_adopt_stops(sealed: Seq<(Seq<char>, Seq<char>)>, lines: Seq<Seq<char>>, n: int)
    requires
        0 <= n <= lines.len(),
        spec_adopt(sealed, lines.take(n)).1 is Some,
    ensures
        spec_adopt(sealed, lines) == spec_adopt(sealed, lines.take(n)),
    decreases lines.len() - n,
{
    if n == lines.len() {
        assert(lines.take(n) =~= lines);
    } else {
        assert(lines.take(n + 1).drop_last() =~= lines.take(n));
        lemma_adopt_stops(sealed, lines, n + 1);
    }
}

} // verus!

verus! {

/// Adopting is idempotent across passes: once every seal a pass planned has
/// been planted, and every tip sealed before stays sealed, adopting again
/// over the same listing plans no seal (and stops on the same unparseable
/// line, if any).
pub proof fn adopting_again_plans_nothing(
    sealed: Seq<(Seq<char>, Seq<char>)>,
    sealed_after: Seq<(Seq<char>, Seq<char>)>,
    lines: Seq<Seq<char>>,
)
    requires
        forall|p: (Seq<char>, Seq<char>)| #[trigger] sealed.contains(p) ==> sealed_after.contains(p),
        forall|p: (Seq<char>, Seq<char>)| #[trigger] spec_adopt(sealed, lines).0.contains(p) ==> sealed_after.contains(p),
    ensures
        spec_adopt(sealed_after, lines).0.len() == 0,
        spec_adopt(sealed_after, lines).1 == spec_adopt(sealed, lines).1,
    decreases lines.len(),
{
    if lines.len() > 0 {
        let pre = lines.drop_last();
        let (d1, e1) = spec_adopt(sealed, pre);
        let full = spec_adopt(sealed, lines).0;
        assert forall|p: (Seq<char>, Seq<char>)| #[trigger] d1.contains(p) implies sealed_after.contains(p) by {
            let k = choose|k: int| 0 <= k < d1.len() && d1[k] == p;
            if full != d1 {
                assert(full[k] == p);
            }
            assert(full.contains(p));
        }
        adopting_again_plans_nothing(sealed, sealed_after, pre);
        if e1 is None {
            match spec_listing_line(lines.last(), "work/"@) {
                Err(_) => {},
                Ok(pair) => {
                    if !sealed.contains(pair) {
                        assert(full == d1.push(pair));
                        assert(full[d1.len() as int] == pair);
                        assert(full.contains(pair));
                    }
                    assert(sealed_after.contains(pair));
                },
            }
        }
    }
}

} // verus!
