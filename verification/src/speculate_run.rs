//! The speculator pass: one idempotent sweep of the merge queue that pre-pays
//! gates so closes land as cache hits.
//!
//! One pass, in order: sweep unsealed queue entries, walk the sealed entries
//! head-first, then adopt every quiet `work/<id>` tip. The report lists the
//! sweep and the walk; adoption seals tips without adding to it. The walk chains
//! candidates, consulting the verdict cache before ever building: a candidate
//! is only built when every shallower prefix already holds a pass. `builds`
//! caps how many gates one pass may spend, and a conflict, a failing verdict or
//! a spent budget ends the buildable prefix.
//!
//! The pass alternates git work and decisions, so it is a state machine: the
//! caller performs each [`Action`] (merging, committing, reading and writing
//! verdicts, building under `nice` in a detached worktree, sealing) and hands
//! back the matching [`Event`]; every decision is [`Pass::step`]'s.

use vstd::prelude::*;
use crate::speculate::Verdict;
use crate::speculate_candidate::Merge;
use crate::speculate_queue::Entry;
use crate::gitout::{ok_stdout, spec_ok_stdout, GitOutput};
use crate::text::{concat, owned};

verus! {

/// What the caller must do next.
pub enum Action {
    /// Delete the stale `merging/<id>` tag of an unsealed entry.
    Dequeue { id: String },
    /// `git merge-tree --write-tree <base> <tip>`.
    MergeTree { base: String, tip: String },
    /// Wrap `tree` in an unreferenced merge commit of `base` and `tip`.
    CommitTree { tree: String, base: String, tip: String },
    /// Look up the recorded verdict for `tree` under the current gate.
    ReadVerdict { tree: String },
    /// Materialize `candidate`, run this pass's gate in it, tear it down.
    Build { candidate: String },
    /// Record `verdict` for `tree` under the current gate.
    WriteVerdict { tree: String, verdict: Verdict },
    /// Seal every quiet `work/<id>` tip not already sealed.
    Adopt,
    /// The pass is over; its report is final.
    Done,
}

/// What the caller observed performing the last [`Action`].
pub enum Event {
    Dequeued,
    Merged(Merge),
    Committed(String),
    VerdictRead(Option<Verdict>),
    Built(bool),
    VerdictWritten,
    Adopted(Vec<(String, String)>),
}

enum Phase {
    Sweeping,
    Merging,
    Committing { tree: String },
    Reading { tree: String, candidate: String },
    Building { tree: String, candidate: String },
    Writing { tree: String, candidate: String, pass: bool },
    Adopting,
    Finished,
}

/// One pass in progress.
pub struct Pass {
    entries: Vec<Entry>,
    idx: usize,
    base: String,
    builds: usize,
    spent: usize,
    report: Vec<String>,
    phase: Phase,
}

// ---------------------------------------------------------------- the model

pub struct EntryV {
    pub id: Seq<char>,
    pub tip: Seq<char>,
    pub sealed: bool,
}

pub enum PhaseV {
    Sweeping,
    Merging,
    Committing { tree: Seq<char> },
    Reading { tree: Seq<char>, candidate: Seq<char> },
    Building { tree: Seq<char>, candidate: Seq<char> },
    Writing { tree: Seq<char>, candidate: Seq<char>, pass: bool },
    Adopting,
    Finished,
}

pub struct PassV {
    pub entries: Seq<EntryV>,
    pub idx: int,
    pub base: Seq<char>,
    pub builds: int,
    pub spent: int,
    pub report: Seq<Seq<char>>,
    pub phase: PhaseV,
}

pub enum ActionV {
    Dequeue { id: Seq<char> },
    MergeTree { base: Seq<char>, tip: Seq<char> },
    CommitTree { tree: Seq<char>, base: Seq<char>, tip: Seq<char> },
    ReadVerdict { tree: Seq<char> },
    Build { candidate: Seq<char> },
    WriteVerdict { tree: Seq<char>, pass: bool, builder: Seq<char> },
    Adopt,
    Done,
}

pub enum EventV {
    Dequeued,
    Merged(Option<Seq<char>>),
    Committed(Seq<char>),
    VerdictRead(Option<bool>),
    Built(bool),
    VerdictWritten,
    Adopted(Seq<(Seq<char>, Seq<char>)>),
}

pub open spec fn entry_v(e: Entry) -> EntryV {
    EntryV { id: e.id@, tip: e.tip@, sealed: e.sealed }
}

impl View for Action {
    type V = ActionV;

    open spec fn view(&self) -> ActionV {
        match self {
            Action::Dequeue { id } => ActionV::Dequeue { id: id@ },
            Action::MergeTree { base, tip } => ActionV::MergeTree { base: base@, tip: tip@ },
            Action::CommitTree { tree, base, tip } => ActionV::CommitTree { tree: tree@, base: base@, tip: tip@ },
            Action::ReadVerdict { tree } => ActionV::ReadVerdict { tree: tree@ },
            Action::Build { candidate } => ActionV::Build { candidate: candidate@ },
            Action::WriteVerdict { tree, verdict } => ActionV::WriteVerdict {
                tree: tree@,
                pass: verdict.pass,
                builder: verdict.builder@,
            },
            Action::Adopt => ActionV::Adopt,
            Action::Done => ActionV::Done,
        }
    }
}

impl View for Event {
    type V = EventV;

    open spec fn view(&self) -> EventV {
        match self {
            Event::Dequeued => EventV::Dequeued,
            Event::Merged(Merge::Tree(t)) => EventV::Merged(Some(t@)),
            Event::Merged(Merge::Conflict) => EventV::Merged(None),
            Event::Committed(c) => EventV::Committed(c@),
            Event::VerdictRead(Some(v)) => EventV::VerdictRead(Some(v.pass)),
            Event::VerdictRead(None) => EventV::VerdictRead(None),
            Event::Built(p) => EventV::Built(*p),
            Event::VerdictWritten => EventV::VerdictWritten,
            Event::Adopted(v) => EventV::Adopted(v@.map_values(|p: (String, String)| (p.0@, p.1@))),
        }
    }
}

spec fn phase_v(p: Phase) -> PhaseV {
    match p {
        Phase::Sweeping => PhaseV::Sweeping,
        Phase::Merging => PhaseV::Merging,
        Phase::Committing { tree } => PhaseV::Committing { tree: tree@ },
        Phase::Reading { tree, candidate } => PhaseV::Reading { tree: tree@, candidate: candidate@ },
        Phase::Building { tree, candidate } => PhaseV::Building { tree: tree@, candidate: candidate@ },
        Phase::Writing { tree, candidate, pass } => PhaseV::Writing { tree: tree@, candidate: candidate@, pass },
        Phase::Adopting => PhaseV::Adopting,
        Phase::Finished => PhaseV::Finished,
    }
}

impl View for Pass {
    type V = PassV;

    closed spec fn view(&self) -> PassV {
        PassV {
            entries: self.entries@.map_values(|e: Entry| entry_v(e)),
            idx: self.idx as int,
            base: self.base@,
            builds: self.builds as int,
            spent: self.spent as int,
            report: self.report@.map_values(|s: String| s@),
            phase: phase_v(self.phase),
        }
    }
}

/// The report lines, one per event of the pass.
pub open spec fn swept_line(id: Seq<char>) -> Seq<char> {
    "swept "@ + id + " (unsealed)"@
}

pub open spec fn conflict_line(id: Seq<char>) -> Seq<char> {
    "conflict "@ + id + " — fold-at-close, chain stops"@
}

pub open spec fn hit_line(id: Seq<char>, tree: Seq<char>) -> Seq<char> {
    "hit "@ + id + " "@ + tree
}

pub open spec fn fail_line(id: Seq<char>, tree: Seq<char>) -> Seq<char> {
    "fail "@ + id + " "@ + tree + " — chain stops"@
}

pub open spec fn deferred_line(id: Seq<char>) -> Seq<char> {
    "deferred "@ + id + " (builds spent)"@
}

pub open spec fn built_line(id: Seq<char>, tree: Seq<char>, pass: bool) -> Seq<char> {
    if pass {
        "built "@ + id + " "@ + tree + " pass"@
    } else {
        "built "@ + id + " "@ + tree + " FAIL — chain stops"@
    }
}

/// Move on to entry `idx` (or to adoption past the end): an unsealed entry is
/// swept, a sealed one merged onto the chain.
pub open spec fn advance(m: PassV) -> (PassV, ActionV) {
    if m.idx < m.entries.len() {
        let e = m.entries[m.idx];
        if !e.sealed {
            (PassV { phase: PhaseV::Sweeping, ..m }, ActionV::Dequeue { id: e.id })
        } else {
            (PassV { phase: PhaseV::Merging, ..m }, ActionV::MergeTree { base: m.base, tip: e.tip })
        }
    } else {
        (PassV { phase: PhaseV::Adopting, ..m }, ActionV::Adopt)
    }
}

/// Stop the walk: the buildable prefix ends here; adoption remains.
pub open spec fn stop(m: PassV, line: Seq<char>) -> (PassV, ActionV) {
    (PassV { phase: PhaseV::Adopting, report: m.report.push(line), ..m }, ActionV::Adopt)
}

/// The entry passed: the chain grows by its candidate and the walk moves on.
pub open spec fn extend(m: PassV, line: Seq<char>, candidate: Seq<char>) -> (PassV, ActionV) {
    advance(PassV { idx: m.idx + 1, base: candidate, report: m.report.push(line), ..m })
}

/// Does the pass wait for this kind of event?
pub open spec fn accepts(m: PassV, ev: EventV) -> bool {
    match m.phase {
        PhaseV::Sweeping => ev is Dequeued,
        PhaseV::Merging => ev is Merged,
        PhaseV::Committing { .. } => ev is Committed,
        PhaseV::Reading { .. } => ev is VerdictRead,
        PhaseV::Building { .. } => ev is Built,
        PhaseV::Writing { .. } => ev is VerdictWritten,
        PhaseV::Adopting => ev is Adopted,
        PhaseV::Finished => false,
    }
}

/// Every decision of the pass: the next state and action after `ev`.
pub open spec fn next(m: PassV, ev: EventV) -> (PassV, ActionV) {
    let id = m.entries[m.idx].id;
    let tip = m.entries[m.idx].tip;
    match (m.phase, ev) {
        (PhaseV::Sweeping, EventV::Dequeued) => advance(
            PassV { idx: m.idx + 1, report: m.report.push(swept_line(id)), ..m },
        ),
        (PhaseV::Merging, EventV::Merged(Some(tree))) => (
            PassV { phase: PhaseV::Committing { tree }, ..m },
            ActionV::CommitTree { tree, base: m.base, tip },
        ),
        (PhaseV::Merging, EventV::Merged(None)) => stop(m, conflict_line(id)),
        (PhaseV::Committing { tree }, EventV::Committed(candidate)) => (
            PassV { phase: PhaseV::Reading { tree, candidate }, ..m },
            ActionV::ReadVerdict { tree },
        ),
        (PhaseV::Reading { tree, candidate }, EventV::VerdictRead(Some(true))) => extend(
            m,
            hit_line(id, tree),
            candidate,
        ),
        (PhaseV::Reading { tree, candidate }, EventV::VerdictRead(Some(false))) => stop(
            m,
            fail_line(id, tree),
        ),
        (PhaseV::Reading { tree, candidate }, EventV::VerdictRead(None)) => if m.spent >= m.builds {
            stop(m, deferred_line(id))
        } else {
            (
                PassV { phase: PhaseV::Building { tree, candidate }, spent: m.spent + 1, ..m },
                ActionV::Build { candidate },
            )
        },
        (PhaseV::Building { tree, candidate }, EventV::Built(pass)) => (
            PassV { phase: PhaseV::Writing { tree, candidate, pass }, ..m },
            ActionV::WriteVerdict { tree, pass, builder: "bl-speculate"@ },
        ),
        (PhaseV::Writing { tree, candidate, pass }, EventV::VerdictWritten) => if pass {
            extend(m, built_line(id, tree, true), candidate)
        } else {
            stop(m, built_line(id, tree, false))
        },
        (PhaseV::Adopting, EventV::Adopted(_)) => (
            PassV { phase: PhaseV::Finished, ..m },
            ActionV::Done,
        ),
        _ => (m, ActionV::Done),
    }
}

/// The state invariant: the walk position is in range, the budget is never
/// exceeded, and the entry under work is sealed exactly when it is being
/// merged (not swept).
pub open spec fn wf(m: PassV) -> bool {
    &&& 0 <= m.idx <= m.entries.len()
    &&& 0 <= m.spent <= m.builds
    &&& match m.phase {
        PhaseV::Adopting | PhaseV::Finished => true,
        PhaseV::Sweeping => m.idx < m.entries.len() && !m.entries[m.idx].sealed,
        _ => m.idx < m.entries.len() && m.entries[m.idx].sealed,
    }
}

/// The first state and action of a pass over `entries`, with the chain rooted
/// at `base`.
pub open spec fn begin(base: Seq<char>, entries: Seq<EntryV>, builds: int) -> (PassV, ActionV) {
    advance(
        PassV {
            entries,
            idx: 0,
            base,
            builds,
            spent: 0,
            report: Seq::empty(),
            phase: PhaseV::Adopting,
        },
    )
}

// ------------------------------------------------------------ the machine

fn dup(s: &String) -> (r: String)
    ensures
        r@ == s@,
{
    s.clone()
}

impl Pass {
    /// The invariant holds of this pass.
    pub open spec fn valid(&self) -> bool {
        wf(self@)
    }

    /// Where the current entry is headed, and the action it asks for.
    fn advance(&mut self) -> (a: Action)
        requires
            old(self).idx as int <= old(self).entries@.len(),
        ensures
            (final(self)@, a@) == advance(old(self)@),
    {
        if self.idx < self.entries.len() {
            let sealed = self.entries[self.idx].sealed;
            if !sealed {
                let id = dup(&self.entries[self.idx].id);
                self.phase = Phase::Sweeping;
                Action::Dequeue { id }
            } else {
                let tip = dup(&self.entries[self.idx].tip);
                self.phase = Phase::Merging;
                Action::MergeTree { base: dup(&self.base), tip }
            }
        } else {
            self.phase = Phase::Adopting;
            Action::Adopt
        }
    }
}

/// The arguments that resolve the landing branch `onto`, where the
/// candidate chain is rooted.
pub fn base_commit_args(onto: &str) -> (r: Vec<String>)
    ensures
        r@.map_values(|s: String| s@) == seq!["rev-parse"@, "--verify"@, "refs/heads/"@ + onto@],
{
    let r = vec![owned("rev-parse"), owned("--verify"), concat("refs/heads/", onto)];
    assert(r@.map_values(|s: String| s@) =~= seq!["rev-parse"@, "--verify"@, "refs/heads/"@ + onto@]);
    r
}

/// The tip of the landing branch `onto`, from what resolving it gave:
/// the trimmed commit id, or an error naming `git rev-parse <onto>` with
/// git's own message.
pub fn base_commit(onto: &str, out: &GitOutput) -> (r: Result<String, String>)
    ensures
        r matches Ok(s) ==> spec_ok_stdout(*out, "git rev-parse "@ + onto@) == Ok::<Seq<char>, Seq<char>>(s@),
        r matches Err(e) ==> spec_ok_stdout(*out, "git rev-parse "@ + onto@) == Err::<Seq<char>, Seq<char>>(e@),
{
    let what = concat("git rev-parse ", onto);
    ok_stdout(out, what.as_str())
}

/// Begin one pass over the speculation queue: `base` is the landing branch's
/// tip, `entries` the queue in position order, `builds` the gates this pass
/// may spend. The caller performs each returned [`Action`] and hands the
/// outcome back to [`Pass::step`].
pub fn run(base: String, entries: Vec<Entry>, builds: usize) -> (r: (Pass, Action))
    ensures
        (r.0@, r.1@) == begin(base@, entries@.map_values(|e: Entry| entry_v(e)), builds as int),
        r.0.valid(),
{
    let mut p = Pass {
        entries,
        idx: 0,
        base,
        builds,
        spent: 0,
        report: Vec::new(),
        phase: Phase::Adopting,
    };
    assert(p@.report =~= Seq::<Seq<char>>::empty());
    let a = p.advance();
    (p, a)
}

impl Pass {
    /// Whether the pass is waiting for an event of this kind.
    pub fn accepts(&self, ev: &Event) -> (r: bool)
        ensures
            r == accepts(self@, ev@),
    {
        match (&self.phase, ev) {
            (Phase::Sweeping, Event::Dequeued) => true,
            (Phase::Merging, Event::Merged(_)) => true,
            (Phase::Committing { .. }, Event::Committed(_)) => true,
            (Phase::Reading { .. }, Event::VerdictRead(_)) => true,
            (Phase::Building { .. }, Event::Built(_)) => true,
            (Phase::Writing { .. }, Event::VerdictWritten) => true,
            (Phase::Adopting, Event::Adopted(_)) => true,
            _ => false,
        }
    }

    /// The lines reported so far (the whole report once [`Action::Done`]).
    pub fn report(&self) -> (r: &Vec<String>)
        ensures
            r@.map_values(|s: String| s@) == self@.report,
    {
        &self.report
    }

    fn line2(a: &str, b: &str, c: &str) -> (r: String)
        ensures
            r@ == a@ + b@ + c@,
    {
        let mut s = concat(a, b);
        s.append(c);
        s
    }

    fn line3(a: &str, b: &str, c: &str, d: &str) -> (r: String)
        ensures
            r@ == a@ + b@ + c@ + d@,
    {
        let mut s = concat(a, b);
        s.append(c);
        s.append(d);
        s
    }

    fn line4(a: &str, b: &str, c: &str, d: &str, e: &str) -> (r: String)
        ensures
            r@ == a@ + b@ + c@ + d@ + e@,
    {
        let mut s = concat(a, b);
        s.append(c);
        s.append(d);
        s.append(e);
        s
    }

    fn push_line(&mut self, line: String)
        ensures
            final(self)@ == (PassV { report: old(self)@.report.push(line@), ..old(self)@ }),
    {
        let ghost before = self@.report;
        self.report.push(line);
        assert(self@.report =~= before.push(line@));
    }

    /// Take one step: the decision for `ev`, as [`next`] states it.
    pub fn step(&mut self, ev: Event) -> (a: Action)
        requires
            old(self).valid(),
            accepts(old(self)@, ev@),
        ensures
            (final(self)@, a@) == next(old(self)@, ev@),
            final(self).valid(),
    {
        proof {
            lemma_next_keeps_wf(self@, ev@);
        }
        assert(self.idx <= self.entries@.len());
        let mut phase = Phase::Finished;
        std::mem::swap(&mut phase, &mut self.phase);
        match (phase, ev) {
            (Phase::Sweeping, Event::Dequeued) => {
                assert(old(self)@.phase == PhaseV::Sweeping);
                assert(self.idx < self.entries@.len());
                let line = Self::line2("swept ", self.entries[self.idx].id.as_str(), " (unsealed)");
                self.push_line(line);
                let n = self.entries.len();
                assert(self.idx < n);
                self.idx = self.idx + 1;
                self.advance()
            },
            (Phase::Merging, Event::Merged(Merge::Tree(tree))) => {
                let tip = dup(&self.entries[self.idx].tip);
                let base = dup(&self.base);
                let t = dup(&tree);
                self.phase = Phase::Committing { tree };
                Action::CommitTree { tree: t, base, tip }
            },
            (Phase::Merging, Event::Merged(Merge::Conflict)) => {
                let line = Self::line2("conflict ", self.entries[self.idx].id.as_str(), " — fold-at-close, chain stops");
                self.push_line(line);
                self.phase = Phase::Adopting;
                Action::Adopt
            },
            (Phase::Committing { tree }, Event::Committed(candidate)) => {
                let t = dup(&tree);
                self.phase = Phase::Reading { tree, candidate };
                Action::ReadVerdict { tree: t }
            },
            (Phase::Reading { tree, candidate }, Event::VerdictRead(found)) => {
                match found {
                    Some(v) => {
                        if v.pass {
                            let line = Self::line3("hit ", self.entries[self.idx].id.as_str(), " ", tree.as_str());
                            self.push_line(line);
                            self.base = candidate;
                            let n = self.entries.len();
                assert(self.idx < n);
                self.idx = self.idx + 1;
                            self.advance()
                        } else {
                            let line = Self::line4("fail ", self.entries[self.idx].id.as_str(), " ", tree.as_str(), " — chain stops");
                            self.push_line(line);
                            self.phase = Phase::Adopting;
                            Action::Adopt
                        }
                    },
                    None => {
                        if self.spent >= self.builds {
                            let line = Self::line2("deferred ", self.entries[self.idx].id.as_str(), " (builds spent)");
                            self.push_line(line);
                            self.phase = Phase::Adopting;
                            Action::Adopt
                        } else {
                            self.spent = self.spent + 1;
                            let c = dup(&candidate);
                            self.phase = Phase::Building { tree, candidate };
                            Action::Build { candidate: c }
                        }
                    },
                }
            },
            (Phase::Building { tree, candidate }, Event::Built(pass)) => {
                let t = dup(&tree);
                self.phase = Phase::Writing { tree, candidate, pass };
                Action::WriteVerdict { tree: t, verdict: Verdict { pass, builder: owned("bl-speculate") } }
            },
            (Phase::Writing { tree, candidate, pass }, Event::VerdictWritten) => {
                if pass {
                    let line = Self::line4("built ", self.entries[self.idx].id.as_str(), " ", tree.as_str(), " pass");
                    self.push_line(line);
                    self.base = candidate;
                    let n = self.entries.len();
                assert(self.idx < n);
                self.idx = self.idx + 1;
                    self.advance()
                } else {
                    let line = Self::line4("built ", self.entries[self.idx].id.as_str(), " ", tree.as_str(), " FAIL — chain stops");
                    self.push_line(line);
                    self.phase = Phase::Adopting;
                    Action::Adopt
                }
            },
            (Phase::Adopting, Event::Adopted(_)) => {
                self.phase = Phase::Finished;
                Action::Done
            },
            (p, _) => {
                self.phase = p;
                Action::Done
            },
        }
    }
}

// ---------------------------------------------------------------- the laws

proof fn lemma_advance_wf(m: PassV)
    requires
        0 <= m.idx <= m.entries.len(),
        0 <= m.spent <= m.builds,
    ensures
        wf(advance(m).0),
        advance(m).0.report == m.report,
        advance(m).0.idx == m.idx,
        advance(m).0.spent == m.spent,
{
}

proof fn lemma_next_keeps_wf(m: PassV, ev: EventV)
    requires
        wf(m),
        accepts(m, ev),
    ensures
        wf(next(m, ev).0),
{
    match (m.phase, ev) {
        (PhaseV::Sweeping, EventV::Dequeued) => {
            lemma_advance_wf(PassV { idx: m.idx + 1, report: m.report.push(swept_line(m.entries[m.idx].id)), ..m });
        },
        (PhaseV::Reading { tree, candidate }, EventV::VerdictRead(Some(true))) => {
            lemma_advance_wf(PassV { idx: m.idx + 1, base: candidate, report: m.report.push(hit_line(m.entries[m.idx].id, tree)), ..m });
        },
        (PhaseV::Writing { tree, candidate, pass }, EventV::VerdictWritten) => {
            if pass {
                lemma_advance_wf(PassV { idx: m.idx + 1, base: candidate, report: m.report.push(built_line(m.entries[m.idx].id, tree, true)), ..m });
            }
        },
        _ => {},
    }
}

/// What every step of a pass keeps: the invariant (so the gates spent never
/// exceed the budget); the entries and budget themselves; the report, which
/// only ever grows at its end; and the walk, which moves forward by at most
/// one entry per step.
pub proof fn step_preserves(m: PassV, ev: EventV)
    requires
        wf(m),
        accepts(m, ev),
    ensures
        wf(next(m, ev).0),
        next(m, ev).0.spent <= next(m, ev).0.builds,
        next(m, ev).0.entries == m.entries,
        next(m, ev).0.builds == m.builds,
        m.report.len() <= next(m, ev).0.report.len(),
        next(m, ev).0.report.take(m.report.len() as int) == m.report,
        m.idx <= next(m, ev).0.idx <= m.idx + 1,
        m.spent <= next(m, ev).0.spent <= m.spent + 1,
{
    lemma_next_keeps_wf(m, ev);
    assert(next(m, ev).0.report.take(m.report.len() as int) =~= m.report);
}

/// A pass starts in a valid state.
pub proof fn begin_is_valid(base: Seq<char>, entries: Seq<EntryV>, builds: int)
    requires
        builds >= 0,
    ensures
        wf(begin(base, entries, builds).0),
        begin(base, entries, builds).0.report == Seq::<Seq<char>>::empty(),
{
}

/// Gates are spent only on a miss within budget: a build is asked for exactly
/// when the recorded verdict for a sealed entry's candidate is absent and the
/// budget is not yet spent, and it spends one gate.
pub proof fn builds_only_on_a_miss_within_budget(m: PassV, ev: EventV)
    requires
        wf(m),
        accepts(m, ev),
        next(m, ev).1 is Build,
    ensures
        m.phase is Reading,
        ev == EventV::VerdictRead(None),
        m.spent < m.builds,
        next(m, ev).0.spent == m.spent + 1,
        m.entries[m.idx].sealed,
{
}

/// Only sealed entries are merged onto the chain, and unsealed ones are only
/// ever swept: a merge is asked for the current entry only when it is sealed,
/// a sweep only when it is not.
pub proof fn only_sealed_entries_are_merged(m: PassV, ev: EventV)
    requires
        wf(m),
        accepts(m, ev),
    ensures
        next(m, ev).1 matches ActionV::MergeTree { base, tip } ==> next(m, ev).0.entries[next(m, ev).0.idx].sealed
            && tip == next(m, ev).0.entries[next(m, ev).0.idx].tip,
        next(m, ev).1 matches ActionV::Dequeue { id } ==> !next(m, ev).0.entries[next(m, ev).0.idx].sealed
            && id == next(m, ev).0.entries[next(m, ev).0.idx].id,
{
    lemma_next_keeps_wf(m, ev);
}

/// A conflict, a recorded failure, a failing build or a spent budget ends the
/// walk: the next thing asked is adoption, after which the pass is done, so no
/// deeper entry is merged, built or swept.
pub proof fn a_stop_ends_the_walk(m: PassV, ev: EventV)
    requires
        wf(m),
        accepts(m, ev),
        ev == EventV::Merged(None) || ev == EventV::VerdictRead(Some(false)) || (ev
            == EventV::VerdictRead(None) && m.spent >= m.builds) || (m.phase matches PhaseV::Writing { pass, .. } && !pass),
    ensures
        next(m, ev).1 == ActionV::Adopt,
        next(m, ev).0.phase == PhaseV::Adopting,
        forall|ev2: EventV| #[trigger] accepts(next(m, ev).0, ev2) ==> next(next(m, ev).0, ev2).1 == ActionV::Done
            && next(next(m, ev).0, ev2).0.phase == PhaseV::Finished,
{
}

} // verus!
