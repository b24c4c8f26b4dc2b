//! Field-level merge of two conflicting versions of a stored task record.
//!
//! The resolution rules:
//! 1. status: the highest precedence wins;
//! 2. notes: the union of both sides (a note present on both sides is kept
//!    once), ordered by timestamp;
//! 3. every other field: the side updated later wins;
//! 4. `claimed_by`: when the resolved status is closed, the closing side's;
//!    otherwise the first writer's (the side updated earlier);
//! 5. tags, `depends_on` and links: the union, the later side's order first.

use vstd::prelude::*;
use crate::error::{BallError, BallErrorV};
use crate::status::Status;
use crate::text::{chars_of, lines_of, owned, spec_lines, spec_starts_with, starts_with, string_of};

verus! {

/// One note on a task. `ts` is the note's instant in nanoseconds since the
/// Unix epoch.
#[derive(Debug)]
pub struct Note {
    pub ts: i64,
    pub author: String,
    pub text: String,
}

/// A note as plain values.
pub struct NoteV {
    pub ts: i64,
    pub author: Seq<char>,
    pub text: Seq<char>,
}

impl View for Note {
    type V = NoteV;

    open spec fn view(&self) -> NoteV {
        NoteV { ts: self.ts, author: self.author@, text: self.text@ }
    }
}

/// The relation a link records.
#[derive(PartialEq, Eq, Structural, Clone, Copy, Debug)]
pub enum LinkType {
    /// The target must close before the task carrying the link may.
    Gates,
    RelatesTo,
    Duplicates,
}

/// A typed edge to another task.
#[derive(Debug)]
pub struct Link {
    pub link_type: LinkType,
    pub target: String,
}

impl View for Link {
    type V = (LinkType, Seq<char>);

    open spec fn view(&self) -> (LinkType, Seq<char>) {
        (self.link_type, self.target@)
    }
}

/// A closed child, as its parent keeps it once the child is archived.
#[derive(Debug)]
pub struct ArchivedChild {
    pub id: String,
    pub title: String,
    /// Closing instant, nanoseconds since the Unix epoch.
    pub closed_at: i64,
}

/// A stored task record, with the fields the merge reads, plus every other
/// stored field as its key and its JSON text (carried from the winning side).
#[derive(Debug)]
pub struct TaskRecord {
    pub id: String,
    pub title: String,
    pub status: Status,
    /// Last update, nanoseconds since the Unix epoch.
    pub updated_at: i64,
    pub notes: Vec<Note>,
    pub claimed_by: Option<String>,
    /// Closing instant, nanoseconds since the Unix epoch.
    pub closed_at: Option<i64>,
    pub branch: Option<String>,
    pub tags: Vec<String>,
    pub depends_on: Vec<String>,
    pub links: Vec<Link>,
    /// The archived children of the record, in the order they closed.
    pub closed_children: Vec<ArchivedChild>,
    pub fields: Vec<(String, String)>,
}

pub open spec fn strs_v(s: Seq<String>) -> Seq<Seq<char>> {
    s.map_values(|x: String| x@)
}

pub open spec fn notes_v(s: Seq<Note>) -> Seq<NoteV> {
    s.map_values(|x: Note| x@)
}

pub open spec fn links_v(s: Seq<Link>) -> Seq<(LinkType, Seq<char>)> {
    s.map_values(|x: Link| x@)
}

/// `base`, followed by each element of `s` (in order) not already present.
pub open spec fn dedup_onto<T>(base: Seq<T>, s: Seq<T>) -> Seq<T>
    decreases s.len(),
{
    if s.len() == 0 {
        base
    } else {
        let p = dedup_onto(base, s.drop_last());
        if p.contains(s.last()) { p } else { p.push(s.last()) }
    }
}

/// Insert `x` after every element whose timestamp is not later than its own.
pub open spec fn insert_by_ts(s: Seq<NoteV>, x: NoteV) -> Seq<NoteV>
    decreases s.len(),
{
    if s.len() == 0 {
        seq![x]
    } else if s.last().ts <= x.ts {
        s.push(x)
    } else {
        insert_by_ts(s.drop_last(), x).push(s.last())
    }
}

/// The stable sort of `s` by timestamp.
pub open spec fn sort_by_ts(s: Seq<NoteV>) -> Seq<NoteV>
    decreases s.len(),
{
    if s.len() == 0 {
        s
    } else {
        insert_by_ts(sort_by_ts(s.drop_last()), s.last())
    }
}

/// The side whose status wins: ours on a precedence tie.
pub open spec fn status_winner(ours: TaskRecord, theirs: TaskRecord) -> TaskRecord {
    if ours.status.spec_precedence() >= theirs.status.spec_precedence() { ours } else { theirs }
}

pub open spec fn status_loser(ours: TaskRecord, theirs: TaskRecord) -> TaskRecord {
    if ours.status.spec_precedence() >= theirs.status.spec_precedence() { theirs } else { ours }
}

/// The side updated later: ours on a tie.
pub open spec fn newer_of(ours: TaskRecord, theirs: TaskRecord) -> TaskRecord {
    if ours.updated_at >= theirs.updated_at { ours } else { theirs }
}

pub open spec fn older_of(ours: TaskRecord, theirs: TaskRecord) -> TaskRecord {
    if ours.updated_at >= theirs.updated_at { theirs } else { ours }
}

pub open spec fn or_else<T>(a: Option<T>, b: Option<T>) -> Option<T> {
    if a is Some { a } else { b }
}

/// The merged notes: both sides' notes, each distinct note once, ordered by
/// timestamp.
pub open spec fn merged_notes(ours: TaskRecord, theirs: TaskRecord) -> Seq<NoteV> {
    sort_by_ts(dedup_onto(Seq::empty(), notes_v(ours.notes@) + notes_v(theirs.notes@)))
}

/// The whole merge, field by field.
pub open spec fn resolved(ours: TaskRecord, theirs: TaskRecord, r: TaskRecord) -> bool {
    let newer = newer_of(ours, theirs);
    let older = older_of(ours, theirs);
    let winner = status_winner(ours, theirs);
    let loser = status_loser(ours, theirs);
    &&& r.id == newer.id
    &&& r.title == newer.title
    &&& r.fields@ == newer.fields@
    &&& r.closed_children@ == newer.closed_children@
    &&& r.status == winner.status
    &&& r.updated_at == newer.updated_at
    &&& notes_v(r.notes@) == merged_notes(ours, theirs)
    &&& if winner.status is Closed {
        &&& r.claimed_by == winner.claimed_by
        &&& r.closed_at == or_else(winner.closed_at, loser.closed_at)
        &&& r.branch == or_else(winner.branch, loser.branch)
    } else {
        &&& r.claimed_by == or_else(older.claimed_by, newer.claimed_by)
        &&& r.closed_at == newer.closed_at
        &&& r.branch == newer.branch
    }
    &&& strs_v(r.tags@) == dedup_onto(strs_v(newer.tags@), strs_v(older.tags@))
    &&& strs_v(r.depends_on@) == dedup_onto(strs_v(newer.depends_on@), strs_v(older.depends_on@))
    &&& links_v(r.links@) == dedup_onto(links_v(newer.links@), links_v(older.links@))
}

fn copy_opt_string(o: &Option<String>) -> (r: Option<String>)
    ensures
        r == *o,
{
    match o {
        Some(s) => Some(s.clone()),
        None => None,
    }
}

fn copy_note(n: &Note) -> (r: Note)
    ensures
        r == *n,
{
    Note { ts: n.ts, author: n.author.clone(), text: n.text.clone() }
}

fn copy_link(l: &Link) -> (r: Link)
    ensures
        r == *l,
{
    Link { link_type: l.link_type, target: l.target.clone() }
}

fn copy_children(v: &Vec<ArchivedChild>) -> (r: Vec<ArchivedChild>)
    ensures
        r@ == v@,
{
    let mut r: Vec<ArchivedChild> = Vec::new();
    let mut i: usize = 0;
    while i < v.len()
        invariant
            i <= v@.len(),
            r@ == v@.take(i as int),
        decreases v@.len() - i,
    {
        let c = &v[i];
        r.push(ArchivedChild { id: c.id.clone(), title: c.title.clone(), closed_at: c.closed_at });
        i += 1;
        assert(r@ =~= v@.take(i as int));
    }
    assert(v@.take(v@.len() as int) =~= v@);
    r
}

fn copy_fields(v: &Vec<(String, String)>) -> (r: Vec<(String, String)>)
    ensures
        r@ == v@,
{
    let mut r: Vec<(String, String)> = Vec::new();
    let mut i: usize = 0;
    while i < v.len()
        invariant
            i <= v@.len(),
            r@ == v@.take(i as int),
        decreases v@.len() - i,
    {
        let (k, x) = &v[i];
        r.push((k.clone(), x.clone()));
        i += 1;
        assert(r@ =~= v@.take(i as int));
    }
    assert(v@.take(v@.len() as int) =~= v@);
    r
}

fn contains_string(v: &Vec<String>, t: &String) -> (r: bool)
    ensures
        r == strs_v(v@).contains(t@),
{
    let mut i: usize = 0;
    while i < v.len()
        invariant
            i <= v@.len(),
            forall|j: int| 0 <= j < i ==> v@[j]@ != t@,
        decreases v@.len() - i,
    {
        if v[i] == *t {
            assert(strs_v(v@)[i as int] == t@);
            return true;
        }
        i += 1;
    }
    assert(!strs_v(v@).contains(t@)) by {
        if strs_v(v@).contains(t@) {
            let j = choose|j: int| 0 <= j < strs_v(v@).len() && strs_v(v@)[j] == t@;
            assert(v@[j]@ == t@);
        }
    }
    false
}

/// `first`, then each string of `second` not yet present, in order.
fn union_strings(first: &Vec<String>, second: &Vec<String>) -> (r: Vec<String>)
    ensures
        strs_v(r@) == dedup_onto(strs_v(first@), strs_v(second@)),
{
    let mut r: Vec<String> = Vec::new();
    let mut i: usize = 0;
    while i < first.len()
        invariant
            i <= first@.len(),
            r@ == first@.take(i as int),
        decreases first@.len() - i,
    {
        r.push(first[i].clone());
        i += 1;
        assert(r@ =~= first@.take(i as int));
    }
    assert(first@.take(first@.len() as int) =~= first@);
    let mut j: usize = 0;
    while j < second.len()
        invariant
            j <= second@.len(),
            strs_v(r@) == dedup_onto(strs_v(first@), strs_v(second@).take(j as int)),
        decreases second@.len() - j,
    {
        let t = &second[j];
        proof {
            assert(strs_v(second@).take(j + 1).drop_last() =~= strs_v(second@).take(j as int));
            assert(strs_v(second@).take(j + 1).last() == t@);
        }
        if !contains_string(&r, t) {
            r.push(t.clone());
            assert(strs_v(r@) =~= dedup_onto(strs_v(first@), strs_v(second@).take(j as int)).push(t@));
        }
        j += 1;
    }
    assert(strs_v(second@).take(second@.len() as int) =~= strs_v(second@));
    r
}

fn contains_link(v: &Vec<Link>, t: &Link) -> (r: bool)
    ensures
        r == links_v(v@).contains(t@),
{
    let mut i: usize = 0;
    while i < v.len()
        invariant
            i <= v@.len(),
            forall|j: int| 0 <= j < i ==> v@[j]@ != t@,
        decreases v@.len() - i,
    {
        if v[i].link_type == t.link_type && v[i].target == t.target {
            assert(links_v(v@)[i as int] == t@);
            return true;
        }
        i += 1;
    }
    assert(!links_v(v@).contains(t@)) by {
        if links_v(v@).contains(t@) {
            let j = choose|j: int| 0 <= j < links_v(v@).len() && links_v(v@)[j] == t@;
            assert(v@[j]@ == t@);
        }
    }
    false
}

/// `first`, then each link of `second` not yet present, in order.
fn union_links(first: &Vec<Link>, second: &Vec<Link>) -> (r: Vec<Link>)
    ensures
        links_v(r@) == dedup_onto(links_v(first@), links_v(second@)),
{
    let mut r: Vec<Link> = Vec::new();
    let mut i: usize = 0;
    while i < first.len()
        invariant
            i <= first@.len(),
            r@ == first@.take(i as int),
        decreases first@.len() - i,
    {
        r.push(copy_link(&first[i]));
        i += 1;
        assert(r@ =~= first@.take(i as int));
    }
    assert(first@.take(first@.len() as int) =~= first@);
    let mut j: usize = 0;
    while j < second.len()
        invariant
            j <= second@.len(),
            links_v(r@) == dedup_onto(links_v(first@), links_v(second@).take(j as int)),
        decreases second@.len() - j,
    {
        let t = &second[j];
        proof {
            assert(links_v(second@).take(j + 1).drop_last() =~= links_v(second@).take(j as int));
            assert(links_v(second@).take(j + 1).last() == t@);
        }
        if !contains_link(&r, t) {
            r.push(copy_link(t));
            assert(links_v(r@) =~= dedup_onto(links_v(first@), links_v(second@).take(j as int)).push(t@));
        }
        j += 1;
    }
    assert(links_v(second@).take(second@.len() as int) =~= links_v(second@));
    r
}

fn contains_note(v: &Vec<Note>, t: &Note) -> (r: bool)
    ensures
        r == notes_v(v@).contains(t@),
{
    let mut i: usize = 0;
    while i < v.len()
        invariant
            i <= v@.len(),
            forall|j: int| 0 <= j < i ==> v@[j]@ != t@,
        decreases v@.len() - i,
    {
        if v[i].ts == t.ts && v[i].author == t.author && v[i].text == t.text {
            assert(notes_v(v@)[i as int] == t@);
            return true;
        }
        i += 1;
    }
    assert(!notes_v(v@).contains(t@)) by {
        if notes_v(v@).contains(t@) {
            let j = choose|j: int| 0 <= j < notes_v(v@).len() && notes_v(v@)[j] == t@;
            assert(v@[j]@ == t@);
        }
    }
    false
}

/// Append to `acc` each note of `src` (in order) not already present.
fn add_new_notes(acc: &mut Vec<Note>, src: &Vec<Note>)
    ensures
        notes_v(final(acc)@) == dedup_onto(notes_v(old(acc)@), notes_v(src@)),
{
    let ghost start = notes_v(acc@);
    let mut j: usize = 0;
    while j < src.len()
        invariant
            j <= src@.len(),
            notes_v(acc@) == dedup_onto(start, notes_v(src@).take(j as int)),
        decreases src@.len() - j,
    {
        let t = &src[j];
        proof {
            assert(notes_v(src@).take(j + 1).drop_last() =~= notes_v(src@).take(j as int));
            assert(notes_v(src@).take(j + 1).last() == t@);
        }
        if !contains_note(acc, t) {
            acc.push(copy_note(t));
            assert(notes_v(acc@) =~= dedup_onto(start, notes_v(src@).take(j as int)).push(t@));
        }
        j += 1;
    }
    assert(notes_v(src@).take(src@.len() as int) =~= notes_v(src@));
}

/// `dedup_onto` over a concatenation is `dedup_onto` over each part in turn.
proof fn lemma_dedup_concat<T>(base: Seq<T>, a: Seq<T>, b: Seq<T>)
    ensures
        dedup_onto(base, a + b) == dedup_onto(dedup_onto(base, a), b),
    decreases b.len(),
{
    if b.len() == 0 {
        assert(a + b =~= a);
    } else {
        assert((a + b).drop_last() =~= a + b.drop_last());
        assert((a + b).last() == b.last());
        lemma_dedup_concat(base, a, b.drop_last());
    }
}

/// Inserting at the position a backwards scan stops at is `insert_by_ts`.
proof fn lemma_insert_at_scan(s: Seq<NoteV>, x: NoteV, k: int)
    requires
        0 <= k <= s.len(),
        forall|j: int| k <= j < s.len() ==> #[trigger] s[j].ts > x.ts,
        k == 0 || s[k - 1].ts <= x.ts,
    ensures
        insert_by_ts(s, x) == s.insert(k, x),
    decreases s.len(),
{
    if s.len() == 0 {
        assert(s.insert(k, x) =~= seq![x]);
    } else if k == s.len() {
        assert(s.insert(k, x) =~= s.push(x));
    } else {
        assert(s.last().ts > x.ts);
        lemma_insert_at_scan(s.drop_last(), x, k);
        assert(s.drop_last().insert(k, x).push(s.last()) =~= s.insert(k, x));
    }
}

/// The notes of `v`, stably sorted by timestamp.
fn sort_notes(v: &Vec<Note>) -> (r: Vec<Note>)
    ensures
        notes_v(r@) == sort_by_ts(notes_v(v@)),
{
    let mut out: Vec<Note> = Vec::new();
    let mut i: usize = 0;
    while i < v.len()
        invariant
            i <= v@.len(),
            notes_v(out@) == sort_by_ts(notes_v(v@).take(i as int)),
            out@.len() == i,
        decreases v@.len() - i,
    {
        let x = copy_note(&v[i]);
        let mut k: usize = out.len();
        while k > 0 && out[k - 1].ts > x.ts
            invariant
                k <= out@.len(),
                forall|j: int| k <= j < out@.len() ==> #[trigger] out@[j].ts > x.ts,
            decreases k,
        {
            k -= 1;
        }
        proof {
            assert(notes_v(v@).take(i + 1).drop_last() =~= notes_v(v@).take(i as int));
            assert(notes_v(v@).take(i + 1).last() == x@);
            lemma_insert_at_scan(notes_v(out@), x@, k as int);
        }
        let ghost pre = notes_v(out@);
        let ghost xv = x@;
        out.insert(k, x);
        assert(notes_v(out@) =~= pre.insert(k as int, xv));
        i += 1;
    }
    assert(notes_v(v@).take(v@.len() as int) =~= notes_v(v@));
    out
}


/// Merge two task versions according to the resolution rules of this module.
pub fn resolve_conflict(ours: &TaskRecord, theirs: &TaskRecord) -> (r: TaskRecord)
    ensures
        resolved(*ours, *theirs, r),
{
    let ours_wins_status = ours.status.precedence() >= theirs.status.precedence();
    let (status_winner, other) = if ours_wins_status { (ours, theirs) } else { (theirs, ours) };
    let ours_newer = ours.updated_at >= theirs.updated_at;
    let (newer, older) = if ours_newer { (ours, theirs) } else { (theirs, ours) };

    let mut all: Vec<Note> = Vec::new();
    add_new_notes(&mut all, &ours.notes);
    add_new_notes(&mut all, &theirs.notes);
    proof {
        assert(notes_v(Seq::<Note>::empty()) =~= Seq::<NoteV>::empty());
        lemma_dedup_concat(Seq::<NoteV>::empty(), notes_v(ours.notes@), notes_v(theirs.notes@));
        assert(notes_v(ours.notes@ + theirs.notes@) =~= notes_v(ours.notes@) + notes_v(theirs.notes@));
    }
    let notes = sort_notes(&all);

    let closed = status_winner.status.is_closed();
    let (claimed_by, closed_at, branch) = if closed {
        let closed_at = match status_winner.closed_at {
            Some(t) => Some(t),
            None => other.closed_at,
        };
        let branch = match &status_winner.branch {
            Some(b) => Some(b.clone()),
            None => copy_opt_string(&other.branch),
        };
        (copy_opt_string(&status_winner.claimed_by), closed_at, branch)
    } else {
        let claimed_by = match &older.claimed_by {
            Some(c) => Some(c.clone()),
            None => copy_opt_string(&newer.claimed_by),
        };
        (claimed_by, newer.closed_at, copy_opt_string(&newer.branch))
    };

    TaskRecord {
        id: newer.id.clone(),
        title: newer.title.clone(),
        status: status_winner.status.duplicate(),
        updated_at: newer.updated_at,
        notes,
        claimed_by,
        closed_at,
        branch,
        tags: union_strings(&newer.tags, &older.tags),
        depends_on: union_strings(&newer.depends_on, &older.depends_on),
        links: union_links(&newer.links, &older.links),
        closed_children: copy_children(&newer.closed_children),
        fields: copy_fields(&newer.fields),
    }
}


/// Timestamps never decrease along `s`.
pub open spec fn sorted_by_ts(s: Seq<NoteV>) -> bool {
    forall|i: int, j: int| 0 <= i < j < s.len() ==> s[i].ts <= s[j].ts
}

proof fn lemma_dedup_contains<T>(base: Seq<T>, s: Seq<T>, x: T)
    ensures
        dedup_onto(base, s).contains(x) <==> (base.contains(x) || s.contains(x)),
    decreases s.len(),
{
    if s.len() > 0 {
        lemma_dedup_contains(base, s.drop_last(), x);
        assert(s =~= s.drop_last().push(s.last()));
        let p = dedup_onto(base, s.drop_last());
        assert(p.push(s.last()).contains(x) <==> (p.contains(x) || x == s.last())) by {
            if p.push(s.last()).contains(x) {
                let k = choose|k: int| 0 <= k < p.push(s.last()).len() && p.push(s.last())[k] == x;
                if k < p.len() {
                    assert(p[k] == x);
                }
            }
            if p.contains(x) {
                let k = choose|k: int| 0 <= k < p.len() && p[k] == x;
                assert(p.push(s.last())[k] == x);
            }
            if x == s.last() {
                assert(p.push(s.last())[p.len() as int] == x);
            }
        }
        assert(s.contains(x) <==> (s.drop_last().contains(x) || x == s.last())) by {
            if s.contains(x) {
                let k = choose|k: int| 0 <= k < s.len() && s[k] == x;
                if k < s.len() - 1 {
                    assert(s.drop_last()[k] == x);
                }
            }
            if s.drop_last().contains(x) {
                let k = choose|k: int| 0 <= k < s.drop_last().len() && s.drop_last()[k] == x;
                assert(s[k] == x);
            }
            if x == s.last() {
                assert(s[s.len() - 1] == x);
            }
        }
    }
}

proof fn lemma_dedup_no_duplicates<T>(base: Seq<T>, s: Seq<T>)
    requires
        base.no_duplicates(),
    ensures
        dedup_onto(base, s).no_duplicates(),
    decreases s.len(),
{
    if s.len() > 0 {
        lemma_dedup_no_duplicates(base, s.drop_last());
        let p = dedup_onto(base, s.drop_last());
        if !p.contains(s.last()) {
            assert forall|i: int, j: int|
                0 <= i < p.push(s.last()).len() && 0 <= j < p.push(s.last()).len() && i != j
                implies p.push(s.last())[i] != p.push(s.last())[j] by {
                if i == p.len() {
                    assert(p[j] != s.last());
                } else if j == p.len() {
                    assert(p[i] != s.last());
                }
            }
        }
    }
}

proof fn lemma_insert_by_ts(s: Seq<NoteV>, x: NoteV)
    ensures
        insert_by_ts(s, x).to_multiset() == s.to_multiset().insert(x),
        insert_by_ts(s, x).len() == s.len() + 1,
        sorted_by_ts(s) ==> sorted_by_ts(insert_by_ts(s, x)),
    decreases s.len(),
{
    broadcast use vstd::seq_lib::group_to_multiset_ensures;

    if s.len() == 0 {
        assert(seq![x] =~= Seq::<NoteV>::empty().push(x));
    } else if s.last().ts <= x.ts {
    } else {
        let d = s.drop_last();
        assert(s =~= d.push(s.last()));
        lemma_insert_by_ts(d, x);
        assert(insert_by_ts(s, x).to_multiset() =~= s.to_multiset().insert(x));
        if sorted_by_ts(s) {
            let q = insert_by_ts(d, x);
            assert forall|k: int| 0 <= k < q.len() implies #[trigger] q[k].ts <= s.last().ts by {
                assert(q.to_multiset().count(q[k]) > 0);
                assert(q.contains(q[k]));
                if q[k] != x {
                    assert(d.to_multiset().count(q[k]) > 0);
                    assert(d.contains(q[k]));
                    let m = choose|m: int| 0 <= m < d.len() && d[m] == q[k];
                    assert(s[m] == q[k]);
                }
            }
            assert(sorted_by_ts(q.push(s.last())));
        }
    }
}

proof fn lemma_sort_by_ts(s: Seq<NoteV>)
    ensures
        sort_by_ts(s).to_multiset() == s.to_multiset(),
        sort_by_ts(s).len() == s.len(),
        sorted_by_ts(sort_by_ts(s)),
    decreases s.len(),
{
    broadcast use vstd::seq_lib::group_to_multiset_ensures;

    if s.len() > 0 {
        lemma_sort_by_ts(s.drop_last());
        lemma_insert_by_ts(sort_by_ts(s.drop_last()), s.last());
        assert(s =~= s.drop_last().push(s.last()));
    }
}

/// Resolution keeps what both sides agree must survive: the winning status is
/// the one of highest precedence (so a close on either side is never lost),
/// the update instant is the later one, every note of either side is kept
/// exactly once in timestamp order, and tags, dependencies and links are the
/// union of both sides.
pub proof fn resolution_keeps_both_sides(ours: TaskRecord, theirs: TaskRecord, r: TaskRecord)
    requires
        resolved(ours, theirs, r),
    ensures
        r.status.spec_precedence() == if ours.status.spec_precedence()
            >= theirs.status.spec_precedence() {
            ours.status.spec_precedence()
        } else {
            theirs.status.spec_precedence()
        },
        (ours.status is Closed || theirs.status is Closed) ==> r.status is Closed,
        r.updated_at == if ours.updated_at >= theirs.updated_at {
            ours.updated_at
        } else {
            theirs.updated_at
        },
        forall|n: NoteV|
            notes_v(r.notes@).contains(n) <==> (notes_v(ours.notes@).contains(n) || notes_v(
                theirs.notes@,
            ).contains(n)),
        notes_v(r.notes@).no_duplicates(),
        sorted_by_ts(notes_v(r.notes@)),
        forall|t: Seq<char>|
            strs_v(r.tags@).contains(t) <==> (strs_v(ours.tags@).contains(t) || strs_v(
                theirs.tags@,
            ).contains(t)),
        forall|t: Seq<char>|
            strs_v(r.depends_on@).contains(t) <==> (strs_v(ours.depends_on@).contains(t)
                || strs_v(theirs.depends_on@).contains(t)),
        forall|l: (LinkType, Seq<char>)|
            links_v(r.links@).contains(l) <==> (links_v(ours.links@).contains(l) || links_v(
                theirs.links@,
            ).contains(l)),
{
    broadcast use vstd::seq_lib::group_to_multiset_ensures;

    let all = notes_v(ours.notes@) + notes_v(theirs.notes@);
    let d = dedup_onto(Seq::<NoteV>::empty(), all);
    lemma_sort_by_ts(d);
    lemma_dedup_no_duplicates(Seq::<NoteV>::empty(), all);
    assert forall|n: NoteV|
        notes_v(r.notes@).contains(n) <==> (notes_v(ours.notes@).contains(n) || notes_v(
            theirs.notes@,
        ).contains(n)) by {
        lemma_dedup_contains(Seq::<NoteV>::empty(), all, n);
        assert(sort_by_ts(d).to_multiset().count(n) == d.to_multiset().count(n));
        if all.contains(n) {
            let k = choose|k: int| 0 <= k < all.len() && all[k] == n;
            if k < notes_v(ours.notes@).len() {
                assert(notes_v(ours.notes@)[k] == n);
            } else {
                assert(notes_v(theirs.notes@)[k - notes_v(ours.notes@).len()] == n);
            }
        }
        if notes_v(ours.notes@).contains(n) {
            let k = choose|k: int| 0 <= k < notes_v(ours.notes@).len() && notes_v(ours.notes@)[k] == n;
            assert(all[k] == n);
        }
        if notes_v(theirs.notes@).contains(n) {
            let k = choose|k: int| 0 <= k < notes_v(theirs.notes@).len() && notes_v(theirs.notes@)[k] == n;
            assert(all[k + notes_v(ours.notes@).len()] == n);
        }
    }
    // A permutation of a sequence without duplicates has none either.
    assert(notes_v(r.notes@).no_duplicates()) by {
        d.lemma_multiset_has_no_duplicates();
        sort_by_ts(d).lemma_multiset_has_no_duplicates_conv();
    }
    let newer = newer_of(ours, theirs);
    let older = older_of(ours, theirs);
    assert forall|t: Seq<char>|
        strs_v(r.tags@).contains(t) <==> (strs_v(ours.tags@).contains(t) || strs_v(
            theirs.tags@,
        ).contains(t)) by {
        lemma_dedup_contains(strs_v(newer.tags@), strs_v(older.tags@), t);
    }
    assert forall|t: Seq<char>|
        strs_v(r.depends_on@).contains(t) <==> (strs_v(ours.depends_on@).contains(t) || strs_v(
            theirs.depends_on@,
        ).contains(t)) by {
        lemma_dedup_contains(strs_v(newer.depends_on@), strs_v(older.depends_on@), t);
    }
    assert forall|l: (LinkType, Seq<char>)|
        links_v(r.links@).contains(l) <==> (links_v(ours.links@).contains(l) || links_v(
            theirs.links@,
        ).contains(l)) by {
        lemma_dedup_contains(links_v(newer.links@), links_v(older.links@), l);
    }
}

} // verus!

verus! {

/// Which side of a conflicted file the lines being read belong to.
#[derive(PartialEq, Eq, Structural, Clone, Copy, Debug)]
pub enum Hunk {
    /// Outside any conflict hunk: the line is on both sides.
    Both,
    /// Between `<<<<<<<` and `=======`.
    Ours,
    /// Between `=======` and `>>>>>>>`.
    Theirs,
}

/// The two sides of a conflicted file and the hunk the next line falls in,
/// read over `lines` from the first: a marker line only switches the hunk;
/// any other line, with a `\n` after it, goes to the sides its hunk names.
pub open spec fn sides_scan(lines: Seq<Seq<char>>) -> (Seq<char>, Seq<char>, Hunk)
    decreases lines.len(),
{
    if lines.len() == 0 {
        (Seq::empty(), Seq::empty(), Hunk::Both)
    } else {
        let (o, t, h) = sides_scan(lines.drop_last());
        let l = lines.last();
        if spec_starts_with(l, "<<<<<<<"@) {
            (o, t, Hunk::Ours)
        } else if spec_starts_with(l, "======="@) {
            (o, t, Hunk::Theirs)
        } else if spec_starts_with(l, ">>>>>>>"@) {
            (o, t, Hunk::Both)
        } else {
            let ln = l.push('\n');
            match h {
                Hunk::Ours => (o + ln, t, h),
                Hunk::Theirs => (o, t + ln, h),
                Hunk::Both => (o + ln, t + ln, h),
            }
        }
    }
}

/// The `ours` and `theirs` versions of a file holding git conflict markers.
pub open spec fn spec_conflict_sides(content: Seq<char>) -> (Seq<char>, Seq<char>) {
    let (o, t, _) = sides_scan(spec_lines(content));
    (o, t)
}

/// Split a conflicted file into its `ours` and `theirs` versions: lines
/// outside the hunks go to both, each hunk half to its own side, the marker
/// lines to neither.
pub fn conflict_sides(content: &str) -> (r: (String, String))
    ensures
        (r.0@, r.1@) == spec_conflict_sides(content@),
{
    let cs = chars_of(content);
    let lines = lines_of(&cs);
    let ghost ls = spec_lines(content@);
    let open_m = chars_of("<<<<<<<");
    let mid_m = chars_of("=======");
    let close_m = chars_of(">>>>>>>");
    let mut ours: Vec<char> = Vec::new();
    let mut theirs: Vec<char> = Vec::new();
    let mut hunk = Hunk::Both;
    let mut i: usize = 0;
    while i < lines.len()
        invariant
            i <= lines@.len(),
            ls == spec_lines(content@),
            cs@ == content@,
            lines@.len() == ls.len(),
            forall|j: int| 0 <= j < lines@.len() ==> #[trigger] lines@[j]@ == ls[j],
            open_m@ == "<<<<<<<"@,
            mid_m@ == "======="@,
            close_m@ == ">>>>>>>"@,
            sides_scan(ls.take(i as int)) == (ours@, theirs@, hunk),
        decreases lines@.len() - i,
    {
        let line = &lines[i];
        proof {
            assert(ls.take(i + 1).drop_last() =~= ls.take(i as int));
            assert(ls.take(i + 1).last() == line@);
        }
        if starts_with(line, &open_m) {
            hunk = Hunk::Ours;
        } else if starts_with(line, &mid_m) {
            hunk = Hunk::Theirs;
        } else if starts_with(line, &close_m) {
            hunk = Hunk::Both;
        } else {
            let ghost o0 = ours@;
            let ghost t0 = theirs@;
            if hunk != Hunk::Theirs {
                append_line(&mut ours, line);
            }
            if hunk != Hunk::Ours {
                append_line(&mut theirs, line);
            }
            proof {
                let ln = line@.push('\n');
                match hunk {
                    Hunk::Ours => { assert(ours@ =~= o0 + ln); assert(theirs@ == t0); },
                    Hunk::Theirs => { assert(theirs@ =~= t0 + ln); assert(ours@ == o0); },
                    Hunk::Both => { assert(ours@ =~= o0 + ln); assert(theirs@ =~= t0 + ln); },
                }
            }
        }
        i += 1;
    }
    proof {
        assert(ls.take(lines@.len() as int) =~= ls);
    }
    (string_of(&ours), string_of(&theirs))
}

/// Append `line` and a `\n` to `side`.
fn append_line(side: &mut Vec<char>, line: &Vec<char>)
    ensures
        final(side)@ == old(side)@ + line@.push('\n'),
{
    let mut k: usize = 0;
    let ghost start = side@;
    while k < line.len()
        invariant
            k <= line@.len(),
            side@ == start + line@.take(k as int),
        decreases line@.len() - k,
    {
        side.push(line[k]);
        k += 1;
        assert(side@ =~= start + line@.take(k as int));
    }
    side.push('\n');
    assert(line@.take(line@.len() as int) =~= line@);
    assert(side@ =~= start + line@.push('\n'));
}

/// The error for an unparsable `ours` side.
pub open spec fn ours_error(e: Seq<char>) -> BallErrorV {
    BallErrorV::Conflict("could not parse 'ours' side: "@ + e)
}

/// The error for an unparsable `theirs` side.
pub open spec fn theirs_error(e: Seq<char>) -> BallErrorV {
    BallErrorV::Conflict("could not parse 'theirs' side: "@ + e)
}

/// Pair the two parsed sides of a conflicted task file, or name the first side
/// that did not parse, with the parser's message.
pub fn parsed_sides(
    ours: Result<TaskRecord, String>,
    theirs: Result<TaskRecord, String>,
) -> (r: Result<(TaskRecord, TaskRecord), BallError>)
    ensures
        match (ours, theirs) {
            (Err(e), _) => r matches Err(x) && x@ == ours_error(e@),
            (Ok(_), Err(e)) => r matches Err(x) && x@ == theirs_error(e@),
            (Ok(o), Ok(t)) => r == Ok::<(TaskRecord, TaskRecord), BallError>((o, t)),
        },
{
    match ours {
        Err(e) => {
            let mut m = owned("could not parse 'ours' side: ");
            m.append(e.as_str());
            Err(BallError::Conflict(m))
        },
        Ok(o) => match theirs {
            Err(e) => {
                let mut m = owned("could not parse 'theirs' side: ");
                m.append(e.as_str());
                Err(BallError::Conflict(m))
            },
            Ok(t) => Ok((o, t)),
        },
    }
}

} // verus!

verus! {

/// No line of `lines` is a conflict marker.
pub open spec fn no_markers(lines: Seq<Seq<char>>) -> bool {
    forall|i: int| 0 <= i < lines.len() ==> !spec_starts_with(#[trigger] lines[i], "<<<<<<<"@)
        && !spec_starts_with(lines[i], "======="@) && !spec_starts_with(lines[i], ">>>>>>>"@)
}

/// A file without conflict markers splits into two equal sides: every line
/// is on both.
pub proof fn unconflicted_sides_agree(content: Seq<char>)
    requires
        no_markers(spec_lines(content)),
    ensures
        spec_conflict_sides(content).0 == spec_conflict_sides(content).1,
{
    lemma_scan_without_markers(spec_lines(content));
}

proof fn lemma_scan_without_markers(lines: Seq<Seq<char>>)
    requires
        no_markers(lines),
    ensures
        sides_scan(lines).0 == sides_scan(lines).1,
        sides_scan(lines).2 == Hunk::Both,
    decreases lines.len(),
{
    if lines.len() > 0 {
        let init = lines.drop_last();
        assert forall|i: int| 0 <= i < init.len() implies !spec_starts_with(#[trigger] init[i], "<<<<<<<"@)
            && !spec_starts_with(init[i], "======="@) && !spec_starts_with(init[i], ">>>>>>>"@) by {
            assert(init[i] == lines[i]);
        }
        lemma_scan_without_markers(init);
        assert(lines.last() == lines[lines.len() - 1]);
    }
}

} // verus!

verus! {

/// A close survives the merge with its instant, whichever side was edited
/// later: a closed side's closing instant is the merge's; when only the
/// other side closed, its instant is; a merge that closes keeps an instant
/// whenever either side has one, and never invents one.
pub proof fn a_close_keeps_its_instant(ours: TaskRecord, theirs: TaskRecord, r: TaskRecord)
    requires
        resolved(ours, theirs, r),
    ensures
        ours.status is Closed && ours.closed_at is Some ==> r.closed_at == ours.closed_at,
        theirs.status is Closed && !(ours.status is Closed) && theirs.closed_at is Some ==> r.closed_at
            == theirs.closed_at,
        r.status is Closed && (ours.closed_at is Some || theirs.closed_at is Some) ==> r.closed_at is Some,
        r.status is Closed ==> (r.closed_at == ours.closed_at || r.closed_at == theirs.closed_at),
{
}

} // verus!
