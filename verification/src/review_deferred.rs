//! Deferred-mode review: the work branch is pushed to the code remote, an
//! auto-gate child task is opened, the parent is linked `gates → child` and
//! flipped to review. The squash and the delivery record wait for the forge
//! to merge. Running git and writing tasks is the caller's; the texts and
//! the gating edge are here.

use vstd::prelude::*;
use crate::resolve::{Link, LinkType};
use crate::error::BallError;
use crate::review::opt_v;
use crate::status::Status;
use crate::text::{concat, owned, str_eq};

verus! {

/// Title of the auto-opened gating child.
pub open spec fn spec_gate_title(id: Seq<char>) -> Seq<char> {
    "Forge: PR merged for "@ + id
}

/// See [`spec_gate_title`].
pub fn gate_title(id: &str) -> (r: String)
    ensures
        r@ == spec_gate_title(id@),
{
    concat("Forge: PR merged for ", id)
}

/// Description of the gating child: what it gates and why it is not claimed.
pub open spec fn spec_gate_description(id: Seq<char>) -> Seq<char> {
    "Auto-opened by deferred-mode `bl review`. The forge PR for "@ + id
        + " must merge before this closes; closing it (plugin sync, or a human after merging) unblocks `bl close "@
        + id + "`. Do not claim — it gates "@ + id + "."@
}

/// See [`spec_gate_description`].
pub fn gate_description(id: &str) -> (r: String)
    ensures
        r@ == spec_gate_description(id@),
{
    let mut r = concat("Auto-opened by deferred-mode `bl review`. The forge PR for ", id);
    r.append(" must merge before this closes; closing it (plugin sync, or a human after merging) unblocks `bl close ");
    r.append(id);
    r.append("`. Do not claim — it gates ");
    r.append(id);
    r.append(".");
    r
}

/// The state commit creating the gating child.
pub fn create_message(child: &str, title: &str) -> (r: String)
    ensures
        r@ == "balls: create "@ + child@ + " - "@ + title@,
{
    let mut r = concat("balls: create ", child);
    r.append(" - ");
    r.append(title);
    r
}

/// The state commit flipping the parent to review.
pub fn review_message(id: &str) -> (r: String)
    ensures
        r@ == "state: review "@ + id@ + " deferred"@,
{
    let mut r = concat("state: review ", id);
    r.append(" deferred");
    r
}

/// `links` with the edge `gates → child` added, unless it is already there.
pub open spec fn spec_gate_links(links: Seq<(LinkType, Seq<char>)>, child: Seq<char>) -> Seq<(LinkType, Seq<char>)> {
    if links.contains((LinkType::Gates, child)) {
        links
    } else {
        links.push((LinkType::Gates, child))
    }
}

pub open spec fn links_view(s: Seq<Link>) -> Seq<(LinkType, Seq<char>)> {
    s.map_values(|l: Link| l@)
}

/// Gate the parent on the child: the link must exist before (or with) the
/// status flip, so a close racing the flip already sees the open gate.
pub fn gate_parent(links: &mut Vec<Link>, child: &str)
    ensures
        links_view(final(links)@) == spec_gate_links(links_view(old(links)@), child@),
{
    let ghost lv = links_view(links@);
    let mut i: usize = 0;
    while i < links.len()
        invariant
            i <= links@.len(),
            links@ == old(links)@,
            lv == links_view(links@),
            forall|j: int| 0 <= j < i ==> #[trigger] lv[j] != (LinkType::Gates, child@),
        decreases links@.len() - i,
    {
        if links[i].link_type == LinkType::Gates && str_eq(links[i].target.as_str(), child) {
            proof {
                assert(lv[i as int] == (LinkType::Gates, child@));
            }
            return;
        }
        i += 1;
    }
    proof {
        assert(!lv.contains((LinkType::Gates, child@))) by {
            if lv.contains((LinkType::Gates, child@)) {
                let k = choose|k: int| 0 <= k < lv.len() && #[trigger] lv[k] == (LinkType::Gates, child@);
            }
        }
    }
    links.push(Link { link_type: LinkType::Gates, target: owned(child) });
    proof {
        assert(links_view(links@) =~= lv.push((LinkType::Gates, child@)));
    }
}

/// What the operator is told: where the branch went, and which gate to close
/// once the PR merges.
pub fn pushed_notice(branch: &str, target: &str) -> (r: String)
    ensures
        r@ == "deferred: pushed "@ + branch@ + " to origin (base "@ + target@ + ")"@,
{
    let mut r = concat("deferred: pushed ", branch);
    r.append(" to origin (base ");
    r.append(target);
    r.append(")");
    r
}

/// Gate line of the operator notice.
pub fn gate_notice(child: &str, id: &str) -> (r: String)
    ensures
        r@ == "gate task: "@ + child@ + " — close it when the PR merges to unblock `bl close "@ + id@ + "`"@,
{
    let mut r = concat("gate task: ", child);
    r.append(" — close it when the PR merges to unblock `bl close ");
    r.append(id);
    r.append("`");
    r
}

/// The standard-error line: the parent is in review and gated.
pub fn gated_notice(id: &str, child: &str) -> (r: String)
    ensures
        r@ == id@ + " is in review and gated by "@ + child@ + "; `bl close "@ + id@
            + "` is blocked until the PR merges."@,
{
    let mut r = owned(id);
    r.append(" is in review and gated by ");
    r.append(child);
    r.append("; `bl close ");
    r.append(id);
    r.append("` is blocked until the PR merges.");
    r
}

} // verus!

verus! {

/// The auto-gate child a deferred-mode review opens: an open, unclaimed
/// task of type `task`, priority 3, tagged `forge-gate`, with no
/// dependencies, whose parent is the reviewed task and whose repo is the
/// parent's.
pub struct GateChild {
    pub id: String,
    pub title: String,
    pub description: String,
    pub task_type: String,
    pub priority: u8,
    pub parent: String,
    pub depends_on: Vec<String>,
    pub tags: Vec<String>,
    pub status: Status,
    pub claimed_by: Option<String>,
    pub repo: Option<String>,
}

/// The child [`GateChild`] describes for review `id`, minted as `child`,
/// of a parent whose repo is `repo`.
pub open spec fn is_gate_child(c: GateChild, id: Seq<char>, child: Seq<char>, repo: Option<Seq<char>>) -> bool {
    &&& c.id@ == child
    &&& c.title@ == spec_gate_title(id)
    &&& c.description@ == spec_gate_description(id)
    &&& c.task_type@ == "task"@
    &&& c.priority == 3
    &&& c.parent@ == id
    &&& c.depends_on@.len() == 0
    &&& c.tags@.map_values(|t: String| t@) == seq!["forge-gate"@]
    &&& c.status == Status::Open
    &&& c.claimed_by is None
    &&& opt_v(c.repo) == repo
}

/// What the caller must do next in a deferred-mode review.
pub enum DeferredAction {
    /// The review failed with this error; nothing more is done.
    Fail(BallError),
    /// Push the work branch to the code remote (`origin`).
    PushBranch { branch: String },
    /// Mint a fresh task id for the gating child from its title.
    MintChild { title: String },
    /// Save the gating child.
    SaveChild { child: GateChild },
    /// Commit a task on the state branch with this message.
    Commit { id: String, message: String },
    /// Load the parent, gate it on the child ([`gate_parent`]), flip it to
    /// review, touch and save it.
    GateAndFlip { child: String },
    /// Append the note given with the review to the parent.
    AppendNote { text: String },
    /// Tell the operator what to do next: each of `out` on standard output,
    /// then `err` on standard error.
    Notify { out: Vec<String>, err: String },
    /// The review succeeded.
    Finish,
}

/// What the caller observed performing the last action.
pub enum DeferredEvent {
    /// The action succeeded.
    Done,
    /// The minted id.
    Minted(String),
    /// The action failed.
    Failed(BallError),
}

#[derive(PartialEq, Eq, Structural, Clone, Copy)]
pub enum DeferredStep {
    Pushing,
    Minting,
    SavingChild,
    CommittingChild,
    Flipping,
    Noting,
    CommittingParent,
    Notifying,
    Finished,
}

/// One deferred-mode review in progress.
pub struct Deferred {
    id: String,
    branch: String,
    target: String,
    message: Option<String>,
    pr_title: String,
    repo: Option<String>,
    child: String,
    step: DeferredStep,
}

/// A deferred-mode review as plain values.
pub struct DeferredV {
    pub id: Seq<char>,
    pub branch: Seq<char>,
    pub target: Seq<char>,
    pub message: Option<Seq<char>>,
    pub pr_title: Seq<char>,
    pub repo: Option<Seq<char>>,
    pub child: Seq<char>,
    pub step: DeferredStep,
}

impl View for Deferred {
    type V = DeferredV;

    closed spec fn view(&self) -> DeferredV {
        DeferredV {
            id: self.id@,
            branch: self.branch@,
            target: self.target@,
            message: opt_v(self.message),
            pr_title: self.pr_title@,
            repo: opt_v(self.repo),
            child: self.child@,
            step: self.step,
        }
    }
}

/// The lines the operator is told once the parent is committed: on standard
/// output where the branch went, the PR title and which gate task to close; on
/// standard error that the parent is in review and gated.
pub open spec fn notice_out(m: DeferredV) -> Seq<Seq<char>> {
    seq![
        "deferred: pushed "@ + m.branch + " to origin (base "@ + m.target + ")"@,
        "PR title: "@ + m.pr_title,
        "gate task: "@ + m.child + " — close it when the PR merges to unblock `bl close "@ + m.id + "`"@,
    ]
}

pub open spec fn notice_err(m: DeferredV) -> Seq<char> {
    m.id + " is in review and gated by "@ + m.child + "; `bl close "@ + m.id + "` is blocked until the PR merges."@
}

/// Every decision of a deferred-mode review after an outcome other than a
/// failure: from `m`, the next state `n` (which differs from `m` at most in
/// its step and minted child) and the action.
pub open spec fn deferred_next(m: DeferredV, ev: DeferredEvent, n: DeferredV, a: DeferredAction) -> bool {
    &&& n == DeferredV { step: n.step, child: n.child, ..m }
    &&& m.step != DeferredStep::Minting ==> n.child == m.child
    &&& match m.step {
        DeferredStep::Pushing => {
            &&& n.step == DeferredStep::Minting
            &&& a matches DeferredAction::MintChild { title }
            &&& title@ == spec_gate_title(m.id)
        },
        DeferredStep::Minting => {
            &&& ev matches DeferredEvent::Minted(c)
            &&& n.child == c@
            &&& n.step == DeferredStep::SavingChild
            &&& a matches DeferredAction::SaveChild { child: gc }
            &&& is_gate_child(gc, m.id, c@, m.repo)
        },
        DeferredStep::SavingChild => {
            &&& n.step == DeferredStep::CommittingChild
            &&& a matches DeferredAction::Commit { id: cid, message: msg }
            &&& cid@ == m.child
            &&& msg@ == "balls: create "@ + m.child + " - "@ + spec_gate_title(m.id)
        },
        DeferredStep::CommittingChild => {
            &&& n.step == DeferredStep::Flipping
            &&& a matches DeferredAction::GateAndFlip { child: c }
            &&& c@ == m.child
        },
        DeferredStep::Flipping => match m.message {
            Some(note) => {
                &&& n.step == DeferredStep::Noting
                &&& a matches DeferredAction::AppendNote { text }
                &&& text@ == note
            },
            None => {
                &&& n.step == DeferredStep::CommittingParent
                &&& a matches DeferredAction::Commit { id: pid, message: msg }
                &&& pid@ == m.id
                &&& msg@ == "state: review "@ + m.id + " deferred"@
            },
        },
        DeferredStep::Noting => {
            &&& n.step == DeferredStep::CommittingParent
            &&& a matches DeferredAction::Commit { id: pid, message: msg }
            &&& pid@ == m.id
            &&& msg@ == "state: review "@ + m.id + " deferred"@
        },
        DeferredStep::CommittingParent => {
            &&& n.step == DeferredStep::Notifying
            &&& a matches DeferredAction::Notify { out, err }
            &&& out@.map_values(|l: String| l@) == notice_out(m)
            &&& err@ == notice_err(m)
        },
        DeferredStep::Notifying => n.step == DeferredStep::Finished && a is Finish,
        DeferredStep::Finished => false,
    }
}

/// Hand task `id`'s review to a forge: the work branch `branch` is pushed,
/// an auto-gate child is opened and committed, the parent is gated on it and
/// flipped to review in one commit (with the note given with the review, if
/// any), and the operator is told what comes next. `target` is the PR base,
/// `pr_title` the PR title to use and `repo` the parent's repo, which the
/// child inherits. Nothing is squashed and no delivery is recorded: both
/// wait for the forge's merge.
pub fn deferred_review(
    id: String,
    branch: String,
    target: String,
    message: Option<String>,
    pr_title: String,
    repo: Option<String>,
) -> (r: (Deferred, DeferredAction))
    ensures
        r.0@ == (DeferredV {
            id: id@,
            branch: branch@,
            target: target@,
            message: opt_v(message),
            pr_title: pr_title@,
            repo: opt_v(repo),
            child: Seq::empty(),
            step: DeferredStep::Pushing,
        }),
        r.1 matches DeferredAction::PushBranch { branch: b } && b@ == branch@,
{
    let b = owned(branch.as_str());
    let d = Deferred { id, branch, target, message, pr_title, repo, child: String::new(), step: DeferredStep::Pushing };
    proof {
        assert(d@.child =~= Seq::<char>::empty());
    }
    (d, DeferredAction::PushBranch { branch: b })
}

fn forge_gate_tags() -> (r: Vec<String>)
    ensures
        r@.map_values(|t: String| t@) == seq!["forge-gate"@],
{
    let mut v: Vec<String> = Vec::new();
    v.push(owned("forge-gate"));
    proof {
        assert(v@.map_values(|t: String| t@) =~= seq!["forge-gate"@]);
    }
    v
}

fn clone_opt(o: &Option<String>) -> (r: Option<String>)
    ensures
        opt_v(r) == opt_v(*o),
{
    match o {
        Some(s) => Some(owned(s.as_str())),
        None => None,
    }
}

impl Deferred {
    /// Whether the review waits for this kind of event: a minted id while
    /// minting, otherwise an outcome.
    pub fn accepts(&self, ev: &DeferredEvent) -> (r: bool)
        ensures
            r == self.accepts_spec(ev),
    {
        if self.step == DeferredStep::Finished {
            return false;
        }
        match ev {
            DeferredEvent::Minted(_) => self.step == DeferredStep::Minting,
            DeferredEvent::Done => self.step != DeferredStep::Minting,
            DeferredEvent::Failed(_) => true,
        }
    }

    /// Take one step. Any failure ends the review with that error; the
    /// steps run in order: push, mint, save the child, commit it, gate and
    /// flip the parent, note, commit the parent, notify.
    pub fn step(&mut self, ev: DeferredEvent) -> (a: DeferredAction)
        requires
            old(self).accepts_spec(&ev),
        ensures
            ev matches DeferredEvent::Failed(e) ==> (a matches DeferredAction::Fail(x) && x@ == e@
                && final(self)@ == (DeferredV { step: DeferredStep::Finished, ..old(self)@ })),
            !(ev is Failed) ==> deferred_next(old(self)@, ev, final(self)@, a),
    {
        match ev {
            DeferredEvent::Failed(e) => {
                self.step = DeferredStep::Finished;
                return DeferredAction::Fail(e);
            },
            _ => {},
        }
        match self.step {
            DeferredStep::Pushing => {
                self.step = DeferredStep::Minting;
                DeferredAction::MintChild { title: gate_title(self.id.as_str()) }
            },
            DeferredStep::Minting => {
                let c = match ev {
                    DeferredEvent::Minted(c) => c,
                    _ => String::new(),
                };
                let child = GateChild {
                    id: owned(c.as_str()),
                    title: gate_title(self.id.as_str()),
                    description: gate_description(self.id.as_str()),
                    task_type: owned("task"),
                    priority: 3,
                    parent: owned(self.id.as_str()),
                    depends_on: Vec::new(),
                    tags: forge_gate_tags(),
                    status: Status::Open,
                    claimed_by: None,
                    repo: clone_opt(&self.repo),
                };
                self.child = c;
                self.step = DeferredStep::SavingChild;
                DeferredAction::SaveChild { child }
            },
            DeferredStep::SavingChild => {
                self.step = DeferredStep::CommittingChild;
                let title = gate_title(self.id.as_str());
                DeferredAction::Commit {
                    id: owned(self.child.as_str()),
                    message: create_message(self.child.as_str(), title.as_str()),
                }
            },
            DeferredStep::CommittingChild => {
                self.step = DeferredStep::Flipping;
                DeferredAction::GateAndFlip { child: owned(self.child.as_str()) }
            },
            DeferredStep::Flipping => match &self.message {
                Some(m) => {
                    let text = owned(m.as_str());
                    self.step = DeferredStep::Noting;
                    DeferredAction::AppendNote { text }
                },
                None => {
                    self.step = DeferredStep::CommittingParent;
                    DeferredAction::Commit { id: owned(self.id.as_str()), message: review_message(self.id.as_str()) }
                },
            },
            DeferredStep::Noting => {
                self.step = DeferredStep::CommittingParent;
                DeferredAction::Commit { id: owned(self.id.as_str()), message: review_message(self.id.as_str()) }
            },
            DeferredStep::CommittingParent => {
                self.step = DeferredStep::Notifying;
                let mut out: Vec<String> = Vec::new();
                out.push(pushed_notice(self.branch.as_str(), self.target.as_str()));
                out.push(concat("PR title: ", self.pr_title.as_str()));
                out.push(gate_notice(self.child.as_str(), self.id.as_str()));
                proof {
                    assert(out@.map_values(|l: String| l@) =~= notice_out(old(self)@));
                }
                DeferredAction::Notify { out, err: gated_notice(self.id.as_str(), self.child.as_str()) }
            },
            DeferredStep::Notifying => {
                self.step = DeferredStep::Finished;
                DeferredAction::Finish
            },
            DeferredStep::Finished => DeferredAction::Finish,
        }
    }

    /// [`Deferred::accepts`] as a specification.
    pub open spec fn accepts_spec(&self, ev: &DeferredEvent) -> bool {
        self@.step != DeferredStep::Finished && match ev {
            DeferredEvent::Minted(_) => self@.step == DeferredStep::Minting,
            DeferredEvent::Done => self@.step != DeferredStep::Minting,
            DeferredEvent::Failed(_) => true,
        }
    }
}

} // verus!

verus! {

/// The parent is gated and flipped only once its gate child has been
/// committed (the step before is the child's commit), so a close racing the
/// flip already sees the open gate; and the parent's commit comes only after
/// the flip (and the note, when there is one).
pub proof fn the_gate_is_committed_before_the_flip(m: DeferredV, ev: DeferredEvent, n: DeferredV, a: DeferredAction)
    requires
        deferred_next(m, ev, n, a),
    ensures
        a is GateAndFlip ==> m.step == DeferredStep::CommittingChild,
        n.step == DeferredStep::CommittingParent ==> m.step == DeferredStep::Flipping || m.step == DeferredStep::Noting,
{
}

} // verus!
