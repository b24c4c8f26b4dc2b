//! Closing a task: the gating check both close paths share, the close commit's
//! message, and the decisions of closing a reviewed task with a worktree.
//!
//! Closing archives the task in one state-branch commit (the closing
//! message embedded in its body) and tears the worktree down. When the claim
//! policy requires the remote, the state commit is pushed before the
//! destructive teardown; a failed push resets the state branch to its
//! pre-close tip, so the task file and the worktree are still in place for a
//! retry.

use vstd::prelude::*;
use crate::error::{BallError, BallErrorV};
use crate::resolve::{Link, LinkType, TaskRecord};
use crate::status::Status;
use crate::text::{concat, join_sep, owned, spec_join_sep, strings_view};

verus! {

// ------------------------------------------------------------------ gates

/// The children `links` gate on, in order.
pub open spec fn spec_gate_targets(links: Seq<Link>) -> Seq<Seq<char>>
    decreases links.len(),
{
    if links.len() == 0 {
        Seq::empty()
    } else {
        let rest = spec_gate_targets(links.drop_last());
        if links.last().link_type == LinkType::Gates {
            rest.push(links.last().target@)
        } else {
            rest
        }
    }
}

/// The ids of the children that `parent` gates on.
pub fn gate_targets(parent: &TaskRecord) -> (r: Vec<String>)
    ensures
        strings_view(r@) == spec_gate_targets(parent.links@),
{
    link_gate_targets(&parent.links)
}

fn link_gate_targets(links: &Vec<Link>) -> (r: Vec<String>)
    ensures
        strings_view(r@) == spec_gate_targets(links@),
{
    let mut r: Vec<String> = Vec::new();
    let mut i: usize = 0;
    while i < links.len()
        invariant
            i <= links@.len(),
            strings_view(r@) == spec_gate_targets(links@.take(i as int)),
        decreases links@.len() - i,
    {
        proof {
            assert(links@.take(i + 1).drop_last() =~= links@.take(i as int));
        }
        if links[i].link_type == LinkType::Gates {
            let ghost before = strings_view(r@);
            r.push(owned(links[i].target.as_str()));
            proof {
                assert(strings_view(r@) =~= before.push(links@[i as int].target@));
            }
        }
        i += 1;
    }
    proof {
        assert(links@.take(links@.len() as int) =~= links@);
    }
    r
}

/// What loading each gate child gave: its status, or the error.
pub open spec fn spec_open_gates(loaded: Seq<(Seq<char>, Result<Status, BallErrorV>)>) -> Result<Seq<Seq<char>>, BallErrorV>
    decreases loaded.len(),
{
    if loaded.len() == 0 {
        Ok(Seq::empty())
    } else {
        match spec_open_gates(loaded.drop_last()) {
            Err(e) => Err(e),
            Ok(open) => {
                let (id, r) = loaded.last();
                match r {
                    Ok(s) => if s != Status::Closed { Ok(open.push(id)) } else { Ok(open) },
                    Err(BallErrorV::TaskNotFound(_)) => Ok(open),
                    Err(e) => Err(e),
                }
            },
        }
    }
}

pub open spec fn loaded_v(s: Seq<(String, Result<Status, BallError>)>) -> Seq<(Seq<char>, Result<Status, BallErrorV>)> {
    s.map_values(
        |p: (String, Result<Status, BallError>)|
            (
                p.0@,
                match p.1 {
                    Ok(s) => Ok(s),
                    Err(e) => Err(e@),
                },
            ),
    )
}

/// Gate children that are still open: `loaded` pairs each gate target
/// with what loading it gave. A child whose file is gone (already archived)
/// gates nothing; a closed child neither; any other load error stops the
/// check rather than let the parent close past a malformed gate.
pub fn open_gate_blockers(loaded: &Vec<(String, Result<Status, BallError>)>) -> (r: Result<Vec<String>, BallError>)
    ensures
        match spec_open_gates(loaded_v(loaded@)) {
            Ok(open) => r matches Ok(v) && strings_view(v@) == open,
            Err(e) => r matches Err(x) && x@ == e,
        },
{
    let ghost lv = loaded_v(loaded@);
    let mut open: Vec<String> = Vec::new();
    let mut i: usize = 0;
    proof {
        assert(lv.take(0) =~= Seq::<(Seq<char>, Result<Status, BallErrorV>)>::empty());
        assert(strings_view(open@) =~= Seq::<Seq<char>>::empty());
    }
    while i < loaded.len()
        invariant
            i <= loaded@.len(),
            lv == loaded_v(loaded@),
            spec_open_gates(lv.take(i as int)) == Ok::<Seq<Seq<char>>, BallErrorV>(strings_view(open@)),
        decreases loaded@.len() - i,
    {
        proof {
            assert(lv.take(i + 1).drop_last() =~= lv.take(i as int));
            assert(lv.take(i + 1).last() == lv[i as int]);
        }
        let (id, res) = &loaded[i];
        match res {
            Ok(s) => {
                if !s.is_closed() {
                    let ghost before = strings_view(open@);
                    open.push(owned(id.as_str()));
                    proof {
                        assert(strings_view(open@) =~= before.push(id@));
                    }
                }
            },
            Err(BallError::TaskNotFound(_)) => {},
            Err(e) => {
                proof {
                    assert(spec_open_gates(lv.take(i + 1)) == Err::<Seq<Seq<char>>, BallErrorV>(e@));
                    let n = loaded@.len() as int;
                    lemma_open_gates_err_sticks(lv, i + 1, n, e@);
                    assert(lv.take(n) =~= lv);
                }
                return Err(dup_error(e));
            },
        }
        i += 1;
    }
    proof {
        assert(lv.take(loaded@.len() as int) =~= lv);
    }
    Ok(open)
}

proof fn lemma_open_gates_err_sticks(s: Seq<(Seq<char>, Result<Status, BallErrorV>)>, k: int, n: int, e: BallErrorV)
    requires
        0 <= k <= n <= s.len(),
        spec_open_gates(s.take(k)) == Err::<Seq<Seq<char>>, BallErrorV>(e),
    ensures
        spec_open_gates(s.take(n)) == Err::<Seq<Seq<char>>, BallErrorV>(e),
    decreases n - k,
{
    if k < n {
        assert(s.take(k + 1).drop_last() =~= s.take(k));
        lemma_open_gates_err_sticks(s, k + 1, n, e);
    }
}

fn dup_error(e: &BallError) -> (r: BallError)
    ensures
        r@ == e@,
{
    match e {
        BallError::NotARepo => BallError::NotARepo,
        BallError::TaskNotFound(s) => BallError::TaskNotFound(owned(s.as_str())),
        BallError::InvalidTask(s) => BallError::InvalidTask(owned(s.as_str())),
        BallError::Conflict(s) => BallError::Conflict(owned(s.as_str())),
        BallError::Git(s) => BallError::Git(owned(s.as_str())),
        BallError::Other(s) => BallError::Other(owned(s.as_str())),
    }
}

/// The refusal of a close blocked by open gates.
pub open spec fn spec_gate_blocked(parent_id: Seq<char>, blockers: Seq<Seq<char>>) -> Seq<char> {
    let plural = if blockers.len() == 1 { Seq::empty() } else { "s"@ };
    "cannot close "@ + parent_id + ": blocked by open gate"@ + plural + " "@ + spec_join_sep(blockers, ", "@)
        + ". Close the "@ + "gate task"@ + plural + " first, or run `bl link rm "@ + parent_id
        + " gates <id>` to drop a gate."@
}

/// Refuse the close of `parent_id` while any gate is open.
pub fn enforce_gates(parent_id: &str, blockers: &Vec<String>) -> (r: Result<(), BallError>)
    ensures
        strings_view(blockers@).len() == 0 ==> r is Ok,
        strings_view(blockers@).len() > 0 ==> (r matches Err(e) && e@ == BallErrorV::Other(
            spec_gate_blocked(parent_id@, strings_view(blockers@)),
        )),
{
    if blockers.len() == 0 {
        return Ok(());
    }
    let plural = if blockers.len() == 1 { "" } else { "s" };
    let mut m = concat("cannot close ", parent_id);
    m.append(": blocked by open gate");
    m.append(plural);
    m.append(" ");
    m.append(join_sep(blockers.as_slice(), ", ").as_str());
    m.append(". Close the ");
    m.append("gate task");
    m.append(plural);
    m.append(" first, or run `bl link rm ");
    m.append(parent_id);
    m.append(" gates <id>` to drop a gate.");
    proof {
        if blockers@.len() == 1 {
            reveal_strlit("");
            assert(""@ =~= Seq::<char>::empty());
        }
    }
    Err(BallError::Other(m))
}

// --------------------------------------------------------- close message

/// The close commit's message: `state: close <id> - <title>`, with the
/// closing message, when given, as its body.
pub open spec fn spec_close_message(id: Seq<char>, title: Seq<char>, message: Option<Seq<char>>) -> Seq<char> {
    match message {
        Some(m) => "state: close "@ + id + " - "@ + title + "\n\n"@ + m,
        None => "state: close "@ + id + " - "@ + title,
    }
}

/// See [`spec_close_message`].
pub fn close_message(id: &str, title: &str, message: Option<&str>) -> (r: String)
    ensures
        r@ == spec_close_message(id@, title@, match message { Some(m) => Some(m@), None => None }),
{
    let mut r = concat("state: close ", id);
    r.append(" - ");
    r.append(title);
    match message {
        Some(m) => {
            r.append("\n\n");
            r.append(m);
        },
        None => {},
    }
    r
}

// --------------------------------------------------- closing with a worktree

/// What the caller must do next to close a reviewed task.
pub enum CloseAction {
    /// The close failed with this error; nothing more is done.
    Fail(BallError),
    /// Load the task (under its lock).
    LoadTask,
    /// Load each gate child in `targets` and report what each load gave.
    LoadGates { targets: Vec<String> },
    /// Resolve the integration branch for the task's optional target.
    ResolveTarget { task_target: Option<String> },
    /// Record the delivery hint on the task when one resolves; report whether
    /// the task changed.
    PopulateDelivery { target: String },
    /// Save the task and commit it on the state branch with this message.
    CommitDelivery { message: String },
    /// Record the state branch's current tip.
    SnapshotState,
    /// Mark the task closed (now), and archive it in one state-branch commit
    /// with this message.
    Archive { message: String },
    /// Push the state branch commit (the remote is required).
    PushState,
    /// Reset the state branch to `sha` (best effort, outcome ignored).
    ResetState { sha: String },
    /// Remove the task's worktree when it exists.
    RemoveWorktree,
    /// Delete the work branch (best effort, outcome ignored).
    DeleteBranch { branch: String },
    /// Remove the claim file (best effort, outcome ignored).
    RemoveClaim,
    /// The close succeeded.
    Finish,
}

/// What the caller observed performing the last action.
pub enum CloseEvent {
    /// The action succeeded with nothing to report.
    Done,
    /// The action failed.
    Failed(BallError),
    /// The task loaded: its title, work branch, target branch and links.
    Loaded { title: String, branch: Option<String>, target: Option<String>, links: Vec<Link> },
    /// What loading each gate child gave, in the order asked.
    GatesLoaded(Vec<(String, Result<Status, BallError>)>),
    /// A branch name or a commit id.
    Text(String),
    /// Whether recording the delivery changed the task.
    Populated(bool),
}

enum Phase {
    Loading,
    Gating,
    Resolving,
    Populating,
    CommittingDelivery,
    Snapshotting,
    Archiving,
    Pushing,
    Resetting { err: BallError },
    RemovingWorktree,
    DeletingBranch,
    RemovingClaim,
    Finished,
}

/// One close in progress.
pub struct Close {
    id: String,
    message: Option<String>,
    snapshot_state: bool,
    title: String,
    branch: String,
    task_target: Option<String>,
    pre_state: Option<String>,
    archived: bool,
    pushed: bool,
    phase: Phase,
}

pub enum ClosePhaseV {
    Loading,
    Gating,
    Resolving,
    Populating,
    CommittingDelivery,
    Snapshotting,
    Archiving,
    Pushing,
    Resetting { err: BallErrorV },
    RemovingWorktree,
    DeletingBranch,
    RemovingClaim,
    Finished,
}

pub struct CloseV {
    pub id: Seq<char>,
    pub message: Option<Seq<char>>,
    pub snapshot_state: bool,
    pub title: Seq<char>,
    pub branch: Seq<char>,
    pub task_target: Option<Seq<char>>,
    pub pre_state: Option<Seq<char>>,
    /// The archive commit has been made.
    pub archived: bool,
    /// The archive commit has been pushed.
    pub pushed: bool,
    pub phase: ClosePhaseV,
}

pub enum CloseActionV {
    Fail(BallErrorV),
    LoadTask,
    LoadGates { targets: Seq<Seq<char>> },
    ResolveTarget { task_target: Option<Seq<char>> },
    PopulateDelivery { target: Seq<char> },
    CommitDelivery { message: Seq<char> },
    SnapshotState,
    Archive { message: Seq<char> },
    PushState,
    ResetState { sha: Seq<char> },
    RemoveWorktree,
    DeleteBranch { branch: Seq<char> },
    RemoveClaim,
    Finish,
}

pub enum CloseEventV {
    Done,
    Failed(BallErrorV),
    Loaded { title: Seq<char>, branch: Option<Seq<char>>, target: Option<Seq<char>>, links: Seq<Link> },
    GatesLoaded(Seq<(Seq<char>, Result<Status, BallErrorV>)>),
    Text(Seq<char>),
    Populated(bool),
}

pub open spec fn ov(o: Option<String>) -> Option<Seq<char>> {
    match o {
        Some(s) => Some(s@),
        None => None,
    }
}

impl View for CloseAction {
    type V = CloseActionV;

    open spec fn view(&self) -> CloseActionV {
        match self {
            CloseAction::Fail(e) => CloseActionV::Fail(e@),
            CloseAction::LoadTask => CloseActionV::LoadTask,
            CloseAction::LoadGates { targets } => CloseActionV::LoadGates { targets: strings_view(targets@) },
            CloseAction::ResolveTarget { task_target } => CloseActionV::ResolveTarget { task_target: ov(*task_target) },
            CloseAction::PopulateDelivery { target } => CloseActionV::PopulateDelivery { target: target@ },
            CloseAction::CommitDelivery { message } => CloseActionV::CommitDelivery { message: message@ },
            CloseAction::SnapshotState => CloseActionV::SnapshotState,
            CloseAction::Archive { message } => CloseActionV::Archive { message: message@ },
            CloseAction::PushState => CloseActionV::PushState,
            CloseAction::ResetState { sha } => CloseActionV::ResetState { sha: sha@ },
            CloseAction::RemoveWorktree => CloseActionV::RemoveWorktree,
            CloseAction::DeleteBranch { branch } => CloseActionV::DeleteBranch { branch: branch@ },
            CloseAction::RemoveClaim => CloseActionV::RemoveClaim,
            CloseAction::Finish => CloseActionV::Finish,
        }
    }
}

impl View for CloseEvent {
    type V = CloseEventV;

    open spec fn view(&self) -> CloseEventV {
        match self {
            CloseEvent::Done => CloseEventV::Done,
            CloseEvent::Failed(e) => CloseEventV::Failed(e@),
            CloseEvent::Loaded { title, branch, target, links } => CloseEventV::Loaded {
                title: title@,
                branch: ov(*branch),
                target: ov(*target),
                links: links@,
            },
            CloseEvent::GatesLoaded(loaded) => CloseEventV::GatesLoaded(loaded_v(loaded@)),
            CloseEvent::Text(s) => CloseEventV::Text(s@),
            CloseEvent::Populated(b) => CloseEventV::Populated(*b),
        }
    }
}

spec fn phase_v(p: Phase) -> ClosePhaseV {
    match p {
        Phase::Loading => ClosePhaseV::Loading,
        Phase::Gating => ClosePhaseV::Gating,
        Phase::Resolving => ClosePhaseV::Resolving,
        Phase::Populating => ClosePhaseV::Populating,
        Phase::CommittingDelivery => ClosePhaseV::CommittingDelivery,
        Phase::Snapshotting => ClosePhaseV::Snapshotting,
        Phase::Archiving => ClosePhaseV::Archiving,
        Phase::Pushing => ClosePhaseV::Pushing,
        Phase::Resetting { err } => ClosePhaseV::Resetting { err: err@ },
        Phase::RemovingWorktree => ClosePhaseV::RemovingWorktree,
        Phase::DeletingBranch => ClosePhaseV::DeletingBranch,
        Phase::RemovingClaim => ClosePhaseV::RemovingClaim,
        Phase::Finished => ClosePhaseV::Finished,
    }
}

impl View for Close {
    type V = CloseV;

    closed spec fn view(&self) -> CloseV {
        CloseV {
            id: self.id@,
            message: ov(self.message),
            snapshot_state: self.snapshot_state,
            title: self.title@,
            branch: self.branch@,
            task_target: ov(self.task_target),
            pre_state: ov(self.pre_state),
            archived: self.archived,
            pushed: self.pushed,
            phase: phase_v(self.phase),
        }
    }
}

/// The refusal of a close run from inside the task's own worktree.
pub open spec fn in_worktree_message() -> Seq<char> {
    "cannot close from within the worktree — run from the repo root"@
}

pub open spec fn close_fail(m: CloseV, e: BallErrorV) -> (CloseV, CloseActionV) {
    (CloseV { phase: ClosePhaseV::Finished, ..m }, CloseActionV::Fail(e))
}

/// Before archiving: record the state branch's tip when the push is
/// required, so a failed push can be undone.
pub open spec fn before_archive(m: CloseV) -> (CloseV, CloseActionV) {
    if m.snapshot_state {
        (CloseV { phase: ClosePhaseV::Snapshotting, ..m }, CloseActionV::SnapshotState)
    } else {
        archive(m)
    }
}

pub open spec fn archive(m: CloseV) -> (CloseV, CloseActionV) {
    (
        CloseV { phase: ClosePhaseV::Archiving, ..m },
        CloseActionV::Archive { message: spec_close_message(m.id, m.title, m.message) },
    )
}

pub open spec fn teardown(m: CloseV) -> (CloseV, CloseActionV) {
    (CloseV { phase: ClosePhaseV::RemovingWorktree, ..m }, CloseActionV::RemoveWorktree)
}

/// Does the close wait for this kind of event? Outcomes of best-effort
/// actions are accepted whatever they are.
pub open spec fn close_accepts(m: CloseV, ev: CloseEventV) -> bool {
    match m.phase {
        ClosePhaseV::Loading => ev is Loaded || ev is Failed,
        ClosePhaseV::Resolving | ClosePhaseV::Snapshotting => ev is Text || ev is Failed,
        ClosePhaseV::Populating => ev is Populated || ev is Failed,
        ClosePhaseV::Gating => ev is GatesLoaded || ev is Failed,
        ClosePhaseV::CommittingDelivery | ClosePhaseV::Archiving | ClosePhaseV::Pushing
        | ClosePhaseV::RemovingWorktree => ev is Done || ev is Failed,
        ClosePhaseV::Resetting { .. } | ClosePhaseV::DeletingBranch | ClosePhaseV::RemovingClaim => true,
        ClosePhaseV::Finished => false,
    }
}

/// Every decision of a close: the next state and action after `ev`.
pub open spec fn close_next(m: CloseV, ev: CloseEventV) -> (CloseV, CloseActionV) {
    match m.phase {
        ClosePhaseV::Loading => match ev {
            CloseEventV::Loaded { title, branch, target, links } => (
                CloseV {
                    phase: ClosePhaseV::Gating,
                    title,
                    branch: match branch {
                        Some(b) => b,
                        None => "work/"@ + m.id,
                    },
                    task_target: target,
                    ..m
                },
                CloseActionV::LoadGates { targets: spec_gate_targets(links) },
            ),
            CloseEventV::Failed(e) => close_fail(m, e),
            _ => (m, CloseActionV::Finish),
        },
        ClosePhaseV::Gating => match ev {
            CloseEventV::GatesLoaded(loaded) => match spec_open_gates(loaded) {
                Err(e) => close_fail(m, e),
                Ok(open) => if open.len() > 0 {
                    close_fail(m, BallErrorV::Other(spec_gate_blocked(m.id, open)))
                } else {
                    (
                        CloseV { phase: ClosePhaseV::Resolving, ..m },
                        CloseActionV::ResolveTarget { task_target: m.task_target },
                    )
                },
            },
            CloseEventV::Failed(e) => close_fail(m, e),
            _ => (m, CloseActionV::Finish),
        },
        ClosePhaseV::Resolving => match ev {
            CloseEventV::Text(target) => (
                CloseV { phase: ClosePhaseV::Populating, ..m },
                CloseActionV::PopulateDelivery { target },
            ),
            CloseEventV::Failed(e) => close_fail(m, e),
            _ => (m, CloseActionV::Finish),
        },
        ClosePhaseV::Populating => match ev {
            CloseEventV::Populated(changed) => if changed {
                (
                    CloseV { phase: ClosePhaseV::CommittingDelivery, ..m },
                    CloseActionV::CommitDelivery { message: "state: deliver "@ + m.id },
                )
            } else {
                before_archive(m)
            },
            CloseEventV::Failed(e) => close_fail(m, e),
            _ => (m, CloseActionV::Finish),
        },
        ClosePhaseV::CommittingDelivery => match ev {
            CloseEventV::Failed(e) => close_fail(m, e),
            _ => before_archive(m),
        },
        ClosePhaseV::Snapshotting => match ev {
            CloseEventV::Text(sha) => archive(CloseV { pre_state: Some(sha), ..m }),
            CloseEventV::Failed(e) => close_fail(m, e),
            _ => (m, CloseActionV::Finish),
        },
        ClosePhaseV::Archiving => match ev {
            CloseEventV::Failed(e) => close_fail(m, e),
            _ => if m.pre_state is Some {
                (CloseV { phase: ClosePhaseV::Pushing, archived: true, ..m }, CloseActionV::PushState)
            } else {
                teardown(CloseV { archived: true, ..m })
            },
        },
        ClosePhaseV::Pushing => match ev {
            CloseEventV::Failed(e) => (
                CloseV { phase: ClosePhaseV::Resetting { err: e }, ..m },
                CloseActionV::ResetState { sha: m.pre_state->0 },
            ),
            _ => teardown(CloseV { pushed: true, ..m }),
        },
        ClosePhaseV::Resetting { err } => close_fail(m, err),
        ClosePhaseV::RemovingWorktree => match ev {
            CloseEventV::Failed(e) => close_fail(m, e),
            _ => (CloseV { phase: ClosePhaseV::DeletingBranch, ..m }, CloseActionV::DeleteBranch { branch: m.branch }),
        },
        ClosePhaseV::DeletingBranch => (CloseV { phase: ClosePhaseV::RemovingClaim, ..m }, CloseActionV::RemoveClaim),
        ClosePhaseV::RemovingClaim => (CloseV { phase: ClosePhaseV::Finished, ..m }, CloseActionV::Finish),
        ClosePhaseV::Finished => (m, CloseActionV::Finish),
    }
}

/// The inputs of a close and its first state and action: a close run from
/// inside the task's worktree is refused before anything is touched.
pub open spec fn close_begin(
    id: Seq<char>,
    message: Option<Seq<char>>,
    require_remote: bool,
    stealth: bool,
    in_worktree: bool,
) -> (CloseV, CloseActionV) {
    let m = CloseV {
        id,
        message,
        snapshot_state: require_remote && !stealth,
        title: Seq::empty(),
        branch: Seq::empty(),
        task_target: None,
        pre_state: None,
        archived: false,
        pushed: false,
        phase: ClosePhaseV::Loading,
    };
    if in_worktree {
        close_fail(m, BallErrorV::Other(in_worktree_message()))
    } else {
        (m, CloseActionV::LoadTask)
    }
}

/// The close invariant: the archive commit exists exactly from the push on;
/// a push happens only with a recorded state tip; the teardown phases come
/// only after the archive, and after a successful push whenever one was
/// required.
pub open spec fn close_wf(m: CloseV) -> bool {
    &&& match m.phase {
        ClosePhaseV::Loading | ClosePhaseV::Gating | ClosePhaseV::Resolving | ClosePhaseV::Populating
        | ClosePhaseV::CommittingDelivery | ClosePhaseV::Snapshotting | ClosePhaseV::Archiving => !m.archived
            && !m.pushed,
        ClosePhaseV::Pushing | ClosePhaseV::Resetting { .. } => m.archived && !m.pushed && m.pre_state is Some,
        ClosePhaseV::RemovingWorktree | ClosePhaseV::DeletingBranch | ClosePhaseV::RemovingClaim => m.archived
            && (m.pre_state is Some ==> m.pushed),
        ClosePhaseV::Finished => true,
    }
    &&& m.snapshot_state == false ==> m.pre_state is None
    &&& m.phase is Snapshotting ==> m.snapshot_state
}

proof fn lemma_close_next_wf(m: CloseV, ev: CloseEventV)
    requires
        close_wf(m),
    ensures
        close_wf(close_next(m, ev).0),
{
}

fn dup(s: &String) -> (r: String)
    ensures
        r@ == s@,
{
    s.clone()
}

fn dup_opt(o: &Option<String>) -> (r: Option<String>)
    ensures
        ov(r) == ov(*o),
{
    match o {
        Some(s) => Some(s.clone()),
        None => None,
    }
}

/// Close reviewed task `id`, which has a worktree: begin the close.
/// `in_worktree` is whether the invocation stands inside the task's
/// worktree; `require_remote` comes from the claim policy and `stealth` from
/// the store. The caller performs each returned [`CloseAction`] and hands
/// the outcome back to [`Close::step`].
pub fn close_worktree(
    id: String,
    message: Option<String>,
    require_remote: bool,
    stealth: bool,
    in_worktree: bool,
) -> (r: (Close, CloseAction))
    ensures
        (r.0@, r.1@) == close_begin(id@, ov(message), require_remote, stealth, in_worktree),
        r.0.valid(),
{
    let mut c = Close {
        id,
        message,
        snapshot_state: require_remote && !stealth,
        title: String::new(),
        branch: String::new(),
        task_target: None,
        pre_state: None,
        archived: false,
        pushed: false,
        phase: Phase::Loading,
    };
    proof {
        assert(c@.title =~= Seq::<char>::empty());
        assert(c@.branch =~= Seq::<char>::empty());
    }
    if in_worktree {
        c.phase = Phase::Finished;
        (c, CloseAction::Fail(BallError::Other(owned("cannot close from within the worktree — run from the repo root"))))
    } else {
        (c, CloseAction::LoadTask)
    }
}

impl Close {
    /// The invariant holds of this close.
    pub open spec fn valid(&self) -> bool {
        close_wf(self@)
    }

    /// Whether the close is waiting for an event of this kind.
    pub fn accepts(&self, ev: &CloseEvent) -> (r: bool)
        ensures
            r == close_accepts(self@, ev@),
    {
        match (&self.phase, ev) {
            (Phase::Finished, _) => false,
            (Phase::Resetting { .. }, _) | (Phase::DeletingBranch, _) | (Phase::RemovingClaim, _) => true,
            (_, CloseEvent::Failed(_)) => true,
            (Phase::Loading, CloseEvent::Loaded { .. }) => true,
            (Phase::Resolving, CloseEvent::Text(_)) | (Phase::Snapshotting, CloseEvent::Text(_)) => true,
            (Phase::Populating, CloseEvent::Populated(_)) => true,
            (Phase::Gating, CloseEvent::GatesLoaded(_)) => true,
            (Phase::CommittingDelivery, CloseEvent::Done)
            | (Phase::Archiving, CloseEvent::Done) | (Phase::Pushing, CloseEvent::Done)
            | (Phase::RemovingWorktree, CloseEvent::Done) => true,
            _ => false,
        }
    }

    fn fail(&mut self, e: BallError) -> (a: CloseAction)
        ensures
            (final(self)@, a@) == close_fail(old(self)@, e@),
    {
        self.phase = Phase::Finished;
        CloseAction::Fail(e)
    }

    fn archive(&mut self) -> (a: CloseAction)
        ensures
            (final(self)@, a@) == archive(old(self)@),
    {
        let msg = match &self.message {
            Some(m) => close_message(self.id.as_str(), self.title.as_str(), Some(m.as_str())),
            None => close_message(self.id.as_str(), self.title.as_str(), None),
        };
        self.phase = Phase::Archiving;
        CloseAction::Archive { message: msg }
    }

    fn before_archive(&mut self) -> (a: CloseAction)
        ensures
            (final(self)@, a@) == before_archive(old(self)@),
    {
        if self.snapshot_state {
            self.phase = Phase::Snapshotting;
            CloseAction::SnapshotState
        } else {
            self.archive()
        }
    }

    /// Take one step: the decision for `ev`, as [`close_next`] states it.
    pub fn step(&mut self, ev: CloseEvent) -> (a: CloseAction)
        requires
            old(self).valid(),
            close_accepts(old(self)@, ev@),
        ensures
            (final(self)@, a@) == close_next(old(self)@, ev@),
            final(self).valid(),
    {
        proof {
            lemma_close_next_wf(self@, ev@);
        }
        let mut phase = Phase::Finished;
        std::mem::swap(&mut phase, &mut self.phase);
        match phase {
            Phase::Loading => match ev {
                CloseEvent::Loaded { title, branch, target, links } => {
                    self.title = title;
                    self.branch = match branch {
                        Some(b) => b,
                        None => concat("work/", self.id.as_str()),
                    };
                    self.task_target = target;
                    self.phase = Phase::Gating;
                    CloseAction::LoadGates { targets: link_gate_targets(&links) }
                },
                CloseEvent::Failed(e) => self.fail(e),
                _ => {
                    self.phase = phase;
                    CloseAction::Finish
                },
            },
            Phase::Gating => match ev {
                CloseEvent::GatesLoaded(loaded) => match open_gate_blockers(&loaded) {
                    Err(e) => self.fail(e),
                    Ok(open) => match enforce_gates(self.id.as_str(), &open) {
                        Err(e) => self.fail(e),
                        Ok(()) => {
                            self.phase = Phase::Resolving;
                            CloseAction::ResolveTarget { task_target: dup_opt(&self.task_target) }
                        },
                    },
                },
                CloseEvent::Failed(e) => self.fail(e),
                _ => {
                    self.phase = phase;
                    CloseAction::Finish
                },
            },
            Phase::Resolving => match ev {
                CloseEvent::Text(target) => {
                    self.phase = Phase::Populating;
                    CloseAction::PopulateDelivery { target }
                },
                CloseEvent::Failed(e) => self.fail(e),
                _ => {
                    self.phase = phase;
                    CloseAction::Finish
                },
            },
            Phase::Populating => match ev {
                CloseEvent::Populated(changed) => {
                    if changed {
                        self.phase = Phase::CommittingDelivery;
                        CloseAction::CommitDelivery { message: concat("state: deliver ", self.id.as_str()) }
                    } else {
                        self.before_archive()
                    }
                },
                CloseEvent::Failed(e) => self.fail(e),
                _ => {
                    self.phase = phase;
                    CloseAction::Finish
                },
            },
            Phase::CommittingDelivery => match ev {
                CloseEvent::Failed(e) => self.fail(e),
                _ => self.before_archive(),
            },
            Phase::Snapshotting => match ev {
                CloseEvent::Text(sha) => {
                    self.pre_state = Some(sha);
                    self.archive()
                },
                CloseEvent::Failed(e) => self.fail(e),
                _ => {
                    self.phase = phase;
                    CloseAction::Finish
                },
            },
            Phase::Archiving => match ev {
                CloseEvent::Failed(e) => self.fail(e),
                _ => {
                    self.archived = true;
                    if self.pre_state.is_some() {
                        self.phase = Phase::Pushing;
                        CloseAction::PushState
                    } else {
                        self.phase = Phase::RemovingWorktree;
                        CloseAction::RemoveWorktree
                    }
                },
            },
            Phase::Pushing => match ev {
                CloseEvent::Failed(e) => {
                    let sha = match &self.pre_state {
                        Some(s) => dup(s),
                        None => String::new(),
                    };
                    self.phase = Phase::Resetting { err: e };
                    CloseAction::ResetState { sha }
                },
                _ => {
                    self.pushed = true;
                    self.phase = Phase::RemovingWorktree;
                    CloseAction::RemoveWorktree
                },
            },
            Phase::Resetting { err } => self.fail(err),
            Phase::RemovingWorktree => match ev {
                CloseEvent::Failed(e) => self.fail(e),
                _ => {
                    self.phase = Phase::DeletingBranch;
                    CloseAction::DeleteBranch { branch: dup(&self.branch) }
                },
            },
            Phase::DeletingBranch => {
                self.phase = Phase::RemovingClaim;
                CloseAction::RemoveClaim
            },
            Phase::RemovingClaim => {
                self.phase = Phase::Finished;
                CloseAction::Finish
            },
            Phase::Finished => {
                self.phase = phase;
                CloseAction::Finish
            },
        }
    }
}

// ------------------------------------------------------------------- laws

/// Every close begins in a state satisfying the invariant.
pub proof fn close_begin_is_valid(
    id: Seq<char>,
    message: Option<Seq<char>>,
    require_remote: bool,
    stealth: bool,
    in_worktree: bool,
)
    ensures
        close_wf(close_begin(id, message, require_remote, stealth, in_worktree).0),
{
}

/// Every step keeps the close invariant.
pub proof fn close_step_keeps_invariant(m: CloseV, ev: CloseEventV)
    requires
        close_wf(m),
    ensures
        close_wf(close_next(m, ev).0),
{
}

/// The worktree is torn down only after the archive commit, and, when the
/// remote is required, only after the push succeeded.
pub proof fn teardown_follows_the_push(m: CloseV, ev: CloseEventV)
    requires
        close_wf(m),
        close_next(m, ev).1 is RemoveWorktree,
    ensures
        close_next(m, ev).0.archived,
        close_next(m, ev).0.pre_state is Some ==> close_next(m, ev).0.pushed,
{
}

/// A failed push resets the state branch to its pre-close tip, and the close
/// then fails with the push's error; the worktree is never removed on that
/// path.
pub proof fn failed_push_resets_and_keeps_the_worktree(m: CloseV, e: BallErrorV, later: CloseEventV)
    requires
        close_wf(m),
        m.phase is Pushing,
    ensures
        close_next(m, CloseEventV::Failed(e)).1 == (CloseActionV::ResetState { sha: m.pre_state->0 }),
        close_next(close_next(m, CloseEventV::Failed(e)).0, later).1 == CloseActionV::Fail(e),
        close_next(close_next(close_next(m, CloseEventV::Failed(e)).0, later).0, later).1 is Finish,
{
}

/// The archive commit carries the closing message in its body.
pub proof fn archive_carries_the_message(m: CloseV, ev: CloseEventV)
    requires
        close_next(m, ev).1 is Archive,
    ensures
        close_next(m, ev).1 == (CloseActionV::Archive { message: spec_close_message(m.id, m.title, m.message) }),
{
}

} // verus!

verus! {

/// Whether a gate child, by what loading it gave, still blocks the close:
/// it loaded and is not closed.
pub open spec fn gate_still_open(e: (Seq<char>, Result<Status, BallErrorV>)) -> bool {
    e.1 matches Ok(s) && s != Status::Closed
}

/// Whether a load outcome lets the check go on: the child loaded, or its file
/// is gone (already archived).
pub open spec fn gate_load_tolerated(e: (Seq<char>, Result<Status, BallErrorV>)) -> bool {
    e.1 is Ok || e.1 matches Err(BallErrorV::TaskNotFound(_))
}

/// Checking the gating children fails exactly when some child failed to load for a
/// reason other than being gone; otherwise every child that loaded with any
/// status but closed (open, in progress, in review, blocked, deferred or
/// unknown) blocks the close, and nothing else does.
pub proof fn every_unclosed_gate_blocks(loaded: Seq<(Seq<char>, Result<Status, BallErrorV>)>)
    ensures
        spec_open_gates(loaded) is Ok <==> forall|i: int| 0 <= i < loaded.len() ==> #[trigger] gate_load_tolerated(loaded[i]),
        spec_open_gates(loaded) matches Ok(open) ==> forall|i: int|
            0 <= i < loaded.len() && #[trigger] gate_still_open(loaded[i]) ==> open.contains(loaded[i].0),
        spec_open_gates(loaded) matches Ok(open) ==> forall|x: Seq<char>|
            #[trigger] open.contains(x) ==> exists|i: int| 0 <= i < loaded.len() && loaded[i].0 == x && #[trigger] gate_still_open(loaded[i]),
    decreases loaded.len(),
{
    if loaded.len() > 0 {
        let pre = loaded.drop_last();
        every_unclosed_gate_blocks(pre);
        let last = loaded.last();
        assert forall|i: int| 0 <= i < pre.len() implies pre[i] == loaded[i] by {}
        match spec_open_gates(pre) {
            Err(_) => {
                let k = choose|k: int| 0 <= k < pre.len() && !gate_load_tolerated(pre[k]);
                assert(!gate_load_tolerated(loaded[k]));
            },
            Ok(open) => {
                if gate_load_tolerated(last) {
                    assert forall|i: int| 0 <= i < loaded.len() implies #[trigger] gate_load_tolerated(loaded[i]) by {
                        if i < pre.len() {
                            assert(gate_load_tolerated(pre[i]));
                        }
                    }
                    let open2 = spec_open_gates(loaded)->Ok_0;
                    assert(open2 == open || open2 == open.push(last.0));
                    assert(gate_still_open(last) ==> open2 == open.push(last.0));
                    assert(!gate_still_open(last) ==> open2 == open);
                    assert forall|i: int| 0 <= i < loaded.len() && #[trigger] gate_still_open(loaded[i]) implies open2.contains(loaded[i].0) by {
                        if i < pre.len() {
                            assert(gate_still_open(pre[i]));
                            assert(open.contains(pre[i].0));
                            if open2 != open {
                                let k = choose|k: int| 0 <= k < open.len() && open[k] == pre[i].0;
                                assert(open2[k] == pre[i].0);
                            }
                        } else {
                            assert(loaded[i] == last);
                            assert(open2[open.len() as int] == last.0);
                        }
                    }
                    assert forall|x: Seq<char>| #[trigger] open2.contains(x) implies exists|i: int|
                        0 <= i < loaded.len() && loaded[i].0 == x && #[trigger] gate_still_open(loaded[i]) by {
                        let k = choose|k: int| 0 <= k < open2.len() && open2[k] == x;
                        if k < open.len() {
                            assert(open[k] == x);
                            assert(open.contains(x));
                            let i = choose|i: int| 0 <= i < pre.len() && pre[i].0 == x && #[trigger] gate_still_open(pre[i]);
                            assert(loaded[i] == pre[i]);
                        } else {
                            assert(gate_still_open(loaded[loaded.len() - 1]));
                        }
                    }
                } else {
                    assert(!gate_load_tolerated(loaded[loaded.len() - 1]));
                }
            },
        }
    }
}

} // verus!
