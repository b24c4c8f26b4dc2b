//! Submitting work for review: the decisions of `bl review`.
//!
//! In local-squash mode a review commits the worker's code, merges the
//! integration branch in, runs the configured pre-check gate, squash-merges to
//! the integration branch as the single feature commit, and flips the task to
//! `review` on the state branch. In deferred mode the squash is handed to a
//! forge instead. The transition is observably atomic: once the squash may have
//! moved the integration branch, every failure rewinds it to its pre-review tip
//! before the error is returned, and a failed push of the state commit first
//! resets the state branch.
//!
//! The sequence alternates git work and decisions, so it is a state machine:
//! the caller performs each [`ReviewAction`] and hands back the matching
//! [`ReviewEvent`]; [`Review::step`] makes every decision.

use vstd::prelude::*;
use crate::error::{BallError, BallErrorV};
use crate::resolve::TaskRecord;
use crate::status::Status;
use crate::review_safety::{runtime_in_squash_error, squash_error_message};
use crate::text::{concat, owned, str_eq, strings_view};

verus! {

/// What the caller must do next.
pub enum ReviewAction {
    /// The review failed with this error; nothing more is done.
    Fail(BallError),
    /// `git add -A` in the worktree, then unstage every backstop path.
    StageUserChanges,
    /// Commit the worker's changes (outcome ignored).
    CommitWip { message: String },
    /// Resolve the integration branch for the task's optional target.
    ResolveIntegrationBranch { task_target: Option<String> },
    /// Merge the integration branch into the worktree.
    MergeIntegration { branch: String },
    /// Run the configured pre-check gate in the worktree.
    RunPreCheck { command: String },
    /// Hand the review to a forge (deferred mode); its outcome is the review's.
    DeferredReview { branch: String, target: String },
    /// Record the integration branch's current tip.
    SnapshotMain { branch: String },
    /// Record the state branch's current tip.
    SnapshotState,
    /// Squash the work branch onto the integration branch.
    Squash { branch: String, main: String },
    /// List the runtime paths the delivered squash commit carries.
    CheckRuntime { sha: String },
    /// Move the integration branch back to `sha` (best effort, outcome ignored).
    RewindMain { main: String, sha: String },
    /// Print a notice on standard error (outcome ignored).
    Notice { text: String },
    /// Load the task.
    LoadTask,
    /// Resolve the repo-level default integration branch.
    ResolveRepoDefault,
    /// Flip the loaded task to `review`, record the delivery (and, when there
    /// was one, the delivery's source repo), touch and save it.
    FlipTask { delivered: Option<String> },
    /// Append the note given with the review to the task.
    AppendNote { text: String },
    /// Commit the task on the state branch with this message.
    CommitState { message: String },
    /// Push the state branch commit (the remote is required).
    PushState,
    /// Reset the state branch to `sha` (best effort, outcome ignored).
    ResetState { sha: String },
    /// Merge the integration branch back into the worktree (outcome ignored).
    SyncWorktree { main: String },
    /// The review succeeded.
    Finish,
}

/// What the caller observed performing the last action.
pub enum ReviewEvent {
    /// The action succeeded with nothing to report.
    Done,
    /// The action failed.
    Failed(BallError),
    /// A branch name or a commit id.
    Text(String),
    /// The merge completed; `conflict` when it stopped on conflicts.
    Merged { conflict: bool },
    /// The pre-check ran; `success` when it exited zero.
    PreCheck { success: bool },
    /// The squash completed, with the delivered commit (`None`: no code).
    Squashed(Option<String>),
    /// The runtime paths the delivered commit touches.
    Touched(Vec<String>),
}

enum Phase {
    Staging,
    CommittingWip,
    Resolving,
    Merging,
    PreChecking,
    Deferring,
    SnapshottingMain,
    SnapshottingState,
    Squashing,
    CheckingRuntime,
    RewindingInner { err: BallError },
    RewindingOuter { err: BallError },
    Noticing,
    LoadingTask,
    ResolvingDefault,
    Flipping,
    Noting,
    Committing,
    Pushing,
    ResettingState { err: BallError },
    Syncing,
    Finished,
}

/// One review in progress.
pub struct Review {
    id: String,
    branch: String,
    task_target: Option<String>,
    message: Option<String>,
    pre_check: Option<String>,
    deferred: bool,
    snapshot_state: bool,
    main: String,
    pre_main: String,
    pre_state: Option<String>,
    delivered: Option<String>,
    marker: Option<String>,
    squashed: bool,
    rewound: bool,
    phase: Phase,
}

// ---------------------------------------------------------------- the model

pub enum PhaseV {
    Staging,
    CommittingWip,
    Resolving,
    Merging,
    PreChecking,
    Deferring,
    SnapshottingMain,
    SnapshottingState,
    Squashing,
    CheckingRuntime,
    RewindingInner { err: BallErrorV },
    RewindingOuter { err: BallErrorV },
    Noticing,
    LoadingTask,
    ResolvingDefault,
    Flipping,
    Noting,
    Committing,
    Pushing,
    ResettingState { err: BallErrorV },
    Syncing,
    Finished,
}

pub struct ReviewV {
    pub id: Seq<char>,
    pub branch: Seq<char>,
    pub task_target: Option<Seq<char>>,
    pub message: Option<Seq<char>>,
    pub pre_check: Option<Seq<char>>,
    pub deferred: bool,
    pub snapshot_state: bool,
    pub main: Seq<char>,
    pub pre_main: Seq<char>,
    pub pre_state: Option<Seq<char>>,
    pub delivered: Option<Seq<char>>,
    pub marker: Option<Seq<char>>,
    /// The squash has been asked for: the integration branch may have moved.
    pub squashed: bool,
    /// The integration branch has been rewound to its pre-review tip.
    pub rewound: bool,
    pub phase: PhaseV,
}

pub enum ActionV {
    Fail(BallErrorV),
    StageUserChanges,
    CommitWip { message: Seq<char> },
    ResolveIntegrationBranch { task_target: Option<Seq<char>> },
    MergeIntegration { branch: Seq<char> },
    RunPreCheck { command: Seq<char> },
    DeferredReview { branch: Seq<char>, target: Seq<char> },
    SnapshotMain { branch: Seq<char> },
    SnapshotState,
    Squash { branch: Seq<char>, main: Seq<char> },
    CheckRuntime { sha: Seq<char> },
    RewindMain { main: Seq<char>, sha: Seq<char> },
    Notice { text: Seq<char> },
    LoadTask,
    ResolveRepoDefault,
    FlipTask { delivered: Option<Seq<char>> },
    AppendNote { text: Seq<char> },
    CommitState { message: Seq<char> },
    PushState,
    ResetState { sha: Seq<char> },
    SyncWorktree { main: Seq<char> },
    Finish,
}

pub enum EventV {
    Done,
    Failed(BallErrorV),
    Text(Seq<char>),
    Merged { conflict: bool },
    PreCheck { success: bool },
    Squashed(Option<Seq<char>>),
    Touched(Seq<Seq<char>>),
}

pub open spec fn opt_v(o: Option<String>) -> Option<Seq<char>> {
    match o {
        Some(s) => Some(s@),
        None => None,
    }
}

impl View for ReviewAction {
    type V = ActionV;

    open spec fn view(&self) -> ActionV {
        match self {
            ReviewAction::Fail(e) => ActionV::Fail(e@),
            ReviewAction::StageUserChanges => ActionV::StageUserChanges,
            ReviewAction::CommitWip { message } => ActionV::CommitWip { message: message@ },
            ReviewAction::ResolveIntegrationBranch { task_target } => ActionV::ResolveIntegrationBranch {
                task_target: opt_v(*task_target),
            },
            ReviewAction::MergeIntegration { branch } => ActionV::MergeIntegration { branch: branch@ },
            ReviewAction::RunPreCheck { command } => ActionV::RunPreCheck { command: command@ },
            ReviewAction::DeferredReview { branch, target } => ActionV::DeferredReview {
                branch: branch@,
                target: target@,
            },
            ReviewAction::SnapshotMain { branch } => ActionV::SnapshotMain { branch: branch@ },
            ReviewAction::SnapshotState => ActionV::SnapshotState,
            ReviewAction::Squash { branch, main } => ActionV::Squash { branch: branch@, main: main@ },
            ReviewAction::CheckRuntime { sha } => ActionV::CheckRuntime { sha: sha@ },
            ReviewAction::RewindMain { main, sha } => ActionV::RewindMain { main: main@, sha: sha@ },
            ReviewAction::Notice { text } => ActionV::Notice { text: text@ },
            ReviewAction::LoadTask => ActionV::LoadTask,
            ReviewAction::ResolveRepoDefault => ActionV::ResolveRepoDefault,
            ReviewAction::FlipTask { delivered } => ActionV::FlipTask { delivered: opt_v(*delivered) },
            ReviewAction::AppendNote { text } => ActionV::AppendNote { text: text@ },
            ReviewAction::CommitState { message } => ActionV::CommitState { message: message@ },
            ReviewAction::PushState => ActionV::PushState,
            ReviewAction::ResetState { sha } => ActionV::ResetState { sha: sha@ },
            ReviewAction::SyncWorktree { main } => ActionV::SyncWorktree { main: main@ },
            ReviewAction::Finish => ActionV::Finish,
        }
    }
}

impl View for ReviewEvent {
    type V = EventV;

    open spec fn view(&self) -> EventV {
        match self {
            ReviewEvent::Done => EventV::Done,
            ReviewEvent::Failed(e) => EventV::Failed(e@),
            ReviewEvent::Text(s) => EventV::Text(s@),
            ReviewEvent::Merged { conflict } => EventV::Merged { conflict: *conflict },
            ReviewEvent::PreCheck { success } => EventV::PreCheck { success: *success },
            ReviewEvent::Squashed(o) => EventV::Squashed(opt_v(*o)),
            ReviewEvent::Touched(v) => EventV::Touched(strings_view(v@)),
        }
    }
}

spec fn phase_v(p: Phase) -> PhaseV {
    match p {
        Phase::Staging => PhaseV::Staging,
        Phase::CommittingWip => PhaseV::CommittingWip,
        Phase::Resolving => PhaseV::Resolving,
        Phase::Merging => PhaseV::Merging,
        Phase::PreChecking => PhaseV::PreChecking,
        Phase::Deferring => PhaseV::Deferring,
        Phase::SnapshottingMain => PhaseV::SnapshottingMain,
        Phase::SnapshottingState => PhaseV::SnapshottingState,
        Phase::Squashing => PhaseV::Squashing,
        Phase::CheckingRuntime => PhaseV::CheckingRuntime,
        Phase::RewindingInner { err } => PhaseV::RewindingInner { err: err@ },
        Phase::RewindingOuter { err } => PhaseV::RewindingOuter { err: err@ },
        Phase::Noticing => PhaseV::Noticing,
        Phase::LoadingTask => PhaseV::LoadingTask,
        Phase::ResolvingDefault => PhaseV::ResolvingDefault,
        Phase::Flipping => PhaseV::Flipping,
        Phase::Noting => PhaseV::Noting,
        Phase::Committing => PhaseV::Committing,
        Phase::Pushing => PhaseV::Pushing,
        Phase::ResettingState { err } => PhaseV::ResettingState { err: err@ },
        Phase::Syncing => PhaseV::Syncing,
        Phase::Finished => PhaseV::Finished,
    }
}

impl View for Review {
    type V = ReviewV;

    closed spec fn view(&self) -> ReviewV {
        ReviewV {
            id: self.id@,
            branch: self.branch@,
            task_target: opt_v(self.task_target),
            message: opt_v(self.message),
            pre_check: opt_v(self.pre_check),
            deferred: self.deferred,
            snapshot_state: self.snapshot_state,
            main: self.main@,
            pre_main: self.pre_main@,
            pre_state: opt_v(self.pre_state),
            delivered: opt_v(self.delivered),
            marker: opt_v(self.marker),
            squashed: self.squashed,
            rewound: self.rewound,
            phase: phase_v(self.phase),
        }
    }
}

/// The refusal of a deferred-mode review with no explicit target branch.
pub open spec fn deferred_without_target_message() -> Seq<char> {
    "delivery.mode=deferred requires an explicit target_branch (per-task via `bl create --target-branch`, or repo-level under the legacy layout) — the forge PR base must be unambiguous"@
}

pub open spec fn conflict_message(main: Seq<char>, id: Seq<char>) -> Seq<char> {
    "conflicts merging "@ + main + " into work/"@ + id + ". Resolve in worktree, then retry."@
}

pub open spec fn pre_check_message(cmd: Seq<char>) -> Seq<char> {
    "review pre-check failed: `"@ + cmd
        + "` exited non-zero. No squash, no status change — fix it in the worktree and retry `bl review`."@
}

/// The state-branch subject of the review commit: a no-code checkpoint, a
/// delivery to a per-task target branch that differs from the repo default
/// (named, so post-delivery machinery finds it), or a plain delivery.
pub open spec fn state_message(id: Seq<char>, delivered: Option<Seq<char>>, marker: Option<Seq<char>>) -> Seq<char> {
    if delivered is None {
        "state: review "@ + id + " no-code"@
    } else {
        match marker {
            Some(b) => "state: review "@ + id + " target="@ + b,
            None => "state: review "@ + id,
        }
    }
}

/// Roll a failed transition back: rewind the integration branch, then fail.
pub open spec fn rollback(m: ReviewV, err: BallErrorV) -> (ReviewV, ActionV) {
    (
        ReviewV { phase: PhaseV::RewindingOuter { err }, rewound: true, ..m },
        ActionV::RewindMain { main: m.main, sha: m.pre_main },
    )
}

pub open spec fn fail(m: ReviewV, err: BallErrorV) -> (ReviewV, ActionV) {
    (ReviewV { phase: PhaseV::Finished, ..m }, ActionV::Fail(err))
}

/// After the pre-check: the forge takes over in deferred mode, otherwise the
/// integration branch's tip is recorded before the squash.
pub open spec fn after_check(m: ReviewV) -> (ReviewV, ActionV) {
    if m.deferred {
        (ReviewV { phase: PhaseV::Deferring, ..m }, ActionV::DeferredReview { branch: m.branch, target: m.main })
    } else {
        (ReviewV { phase: PhaseV::SnapshottingMain, ..m }, ActionV::SnapshotMain { branch: m.main })
    }
}

pub open spec fn after_merge(m: ReviewV) -> (ReviewV, ActionV) {
    match m.pre_check {
        Some(cmd) => (ReviewV { phase: PhaseV::PreChecking, ..m }, ActionV::RunPreCheck { command: cmd }),
        None => after_check(m),
    }
}

pub open spec fn squash(m: ReviewV) -> (ReviewV, ActionV) {
    (ReviewV { phase: PhaseV::Squashing, squashed: true, ..m }, ActionV::Squash { branch: m.branch, main: m.main })
}

pub open spec fn flip(m: ReviewV) -> (ReviewV, ActionV) {
    (ReviewV { phase: PhaseV::Flipping, ..m }, ActionV::FlipTask { delivered: m.delivered })
}

/// Once the delivery is known to be clean, the task is loaded.
pub open spec fn after_delivery_check(m: ReviewV) -> (ReviewV, ActionV) {
    (ReviewV { phase: PhaseV::LoadingTask, ..m }, ActionV::LoadTask)
}

/// Once the task is loaded: a delivery to a per-task target branch checks it
/// against the repo default before the flip.
pub open spec fn after_load(m: ReviewV) -> (ReviewV, ActionV) {
    if m.delivered is Some && m.task_target is Some {
        (ReviewV { phase: PhaseV::ResolvingDefault, ..m }, ActionV::ResolveRepoDefault)
    } else {
        flip(ReviewV { marker: None, ..m })
    }
}

pub open spec fn commit_state(m: ReviewV) -> (ReviewV, ActionV) {
    (
        ReviewV { phase: PhaseV::Committing, ..m },
        ActionV::CommitState { message: state_message(m.id, m.delivered, m.marker) },
    )
}

pub open spec fn sync(m: ReviewV) -> (ReviewV, ActionV) {
    (ReviewV { phase: PhaseV::Syncing, ..m }, ActionV::SyncWorktree { main: m.main })
}

/// Does the review wait for this kind of event? Outcomes of best-effort
/// actions are accepted whatever they are.
pub open spec fn accepts(m: ReviewV, ev: EventV) -> bool {
    match m.phase {
        PhaseV::Staging | PhaseV::Deferring | PhaseV::LoadingTask | PhaseV::Flipping | PhaseV::Noting | PhaseV::Committing
        | PhaseV::Pushing => ev is Done || ev is Failed,
        PhaseV::Resolving | PhaseV::SnapshottingMain | PhaseV::SnapshottingState
        | PhaseV::ResolvingDefault => ev is Text || ev is Failed,
        PhaseV::Merging => ev is Merged || ev is Failed,
        PhaseV::PreChecking => ev is PreCheck || ev is Failed,
        PhaseV::Squashing => ev is Squashed || ev is Failed,
        PhaseV::CheckingRuntime => ev is Touched || ev is Failed,
        PhaseV::CommittingWip | PhaseV::RewindingInner { .. } | PhaseV::RewindingOuter { .. }
        | PhaseV::Noticing | PhaseV::ResettingState { .. } | PhaseV::Syncing => true,
        PhaseV::Finished => false,
    }
}

/// Every decision of a review: the next state and action after `ev`.
pub open spec fn next(m: ReviewV, ev: EventV) -> (ReviewV, ActionV) {
    match m.phase {
        PhaseV::Staging => match ev {
            EventV::Failed(e) => fail(m, e),
            _ => (ReviewV { phase: PhaseV::CommittingWip, ..m }, ActionV::CommitWip { message: "wip: "@ + m.id }),
        },
        PhaseV::CommittingWip => (
            ReviewV { phase: PhaseV::Resolving, ..m },
            ActionV::ResolveIntegrationBranch { task_target: m.task_target },
        ),
        PhaseV::Resolving => match ev {
            EventV::Text(main) => (
                ReviewV { phase: PhaseV::Merging, main, ..m },
                ActionV::MergeIntegration { branch: main },
            ),
            EventV::Failed(e) => fail(m, e),
            _ => (m, ActionV::Finish),
        },
        PhaseV::Merging => match ev {
            EventV::Merged { conflict } => if conflict {
                fail(m, BallErrorV::Conflict(conflict_message(m.main, m.id)))
            } else {
                after_merge(m)
            },
            EventV::Failed(e) => fail(m, e),
            _ => (m, ActionV::Finish),
        },
        PhaseV::PreChecking => match ev {
            EventV::PreCheck { success } => if success {
                after_check(m)
            } else {
                fail(m, BallErrorV::Other(pre_check_message(m.pre_check->0)))
            },
            EventV::Failed(e) => fail(m, e),
            _ => (m, ActionV::Finish),
        },
        PhaseV::Deferring => match ev {
            EventV::Failed(e) => fail(m, e),
            _ => (ReviewV { phase: PhaseV::Finished, ..m }, ActionV::Finish),
        },
        PhaseV::SnapshottingMain => match ev {
            EventV::Text(sha) => if m.snapshot_state {
                (ReviewV { phase: PhaseV::SnapshottingState, pre_main: sha, ..m }, ActionV::SnapshotState)
            } else {
                squash(ReviewV { pre_main: sha, ..m })
            },
            EventV::Failed(e) => fail(m, e),
            _ => (m, ActionV::Finish),
        },
        PhaseV::SnapshottingState => match ev {
            EventV::Text(sha) => squash(ReviewV { pre_state: Some(sha), ..m }),
            EventV::Failed(e) => fail(m, e),
            _ => (m, ActionV::Finish),
        },
        PhaseV::Squashing => match ev {
            EventV::Squashed(Some(sha)) => (
                ReviewV { phase: PhaseV::CheckingRuntime, delivered: Some(sha), ..m },
                ActionV::CheckRuntime { sha },
            ),
            EventV::Squashed(None) => (
                ReviewV { phase: PhaseV::Noticing, delivered: None, ..m },
                ActionV::Notice { text: "no code delivered — checkpoint review for "@ + m.id },
            ),
            EventV::Failed(e) => rollback(m, e),
            _ => (m, ActionV::Finish),
        },
        PhaseV::CheckingRuntime => match ev {
            EventV::Touched(paths) => if paths.len() > 0 {
                let err = BallErrorV::Other(squash_error_message(m.id, paths));
                (
                    ReviewV { phase: PhaseV::RewindingInner { err }, rewound: true, ..m },
                    ActionV::RewindMain { main: m.main, sha: m.pre_main },
                )
            } else {
                after_delivery_check(m)
            },
            EventV::Failed(e) => rollback(m, e),
            _ => (m, ActionV::Finish),
        },
        PhaseV::RewindingInner { err } => rollback(m, err),
        PhaseV::RewindingOuter { err } => fail(m, err),
        PhaseV::Noticing => after_delivery_check(m),
        PhaseV::LoadingTask => match ev {
            EventV::Failed(e) => rollback(m, e),
            _ => after_load(m),
        },
        PhaseV::ResolvingDefault => match ev {
            EventV::Text(default) => flip(
                ReviewV { marker: if m.main != default { Some(m.main) } else { None }, ..m },
            ),
            EventV::Failed(e) => rollback(m, e),
            _ => (m, ActionV::Finish),
        },
        PhaseV::Flipping => match ev {
            EventV::Failed(e) => rollback(m, e),
            _ => match m.message {
                Some(text) => (ReviewV { phase: PhaseV::Noting, ..m }, ActionV::AppendNote { text }),
                None => commit_state(m),
            },
        },
        PhaseV::Noting => match ev {
            EventV::Failed(e) => rollback(m, e),
            _ => commit_state(m),
        },
        PhaseV::Committing => match ev {
            EventV::Failed(e) => rollback(m, e),
            _ => if m.pre_state is Some {
                (ReviewV { phase: PhaseV::Pushing, ..m }, ActionV::PushState)
            } else {
                sync(m)
            },
        },
        PhaseV::Pushing => match ev {
            EventV::Failed(e) => (
                ReviewV { phase: PhaseV::ResettingState { err: e }, ..m },
                ActionV::ResetState { sha: m.pre_state->0 },
            ),
            _ => sync(m),
        },
        PhaseV::ResettingState { err } => rollback(m, err),
        PhaseV::Syncing => (ReviewV { phase: PhaseV::Finished, ..m }, ActionV::Finish),
        PhaseV::Finished => (m, ActionV::Finish),
    }
}

/// The inputs of a review and its first state and action. A deferred-mode
/// review with no explicit target (neither the task's nor a repo-level one)
/// fails before anything is touched.
pub open spec fn begin(
    id: Seq<char>,
    task_branch: Option<Seq<char>>,
    task_target: Option<Seq<char>>,
    message: Option<Seq<char>>,
    deferred: bool,
    repo_target_set: bool,
    pre_check: Option<Seq<char>>,
    require_remote: bool,
    stealth: bool,
) -> (ReviewV, ActionV) {
    let m = ReviewV {
        id,
        branch: match task_branch {
            Some(b) => b,
            None => "work/"@ + id,
        },
        task_target,
        message,
        pre_check,
        deferred,
        snapshot_state: require_remote && !stealth,
        main: Seq::empty(),
        pre_main: Seq::empty(),
        pre_state: None,
        delivered: None,
        marker: None,
        squashed: false,
        rewound: false,
        phase: PhaseV::Staging,
    };
    if deferred && task_target is None && !repo_target_set {
        fail(m, BallErrorV::Other(deferred_without_target_message()))
    } else {
        (m, ActionV::StageUserChanges)
    }
}

/// Which phases come after the squash was asked for.
pub open spec fn post_squash(p: PhaseV) -> bool {
    match p {
        PhaseV::Squashing | PhaseV::CheckingRuntime | PhaseV::Noticing | PhaseV::LoadingTask | PhaseV::ResolvingDefault
        | PhaseV::Flipping | PhaseV::Noting | PhaseV::Committing | PhaseV::Pushing
        | PhaseV::ResettingState { .. } | PhaseV::Syncing => true,
        _ => false,
    }
}

/// The state invariant: before the squash nothing is squashed or rewound;
/// after it, the integration branch is rewound exactly in the rewinding
/// phases; a push is only attempted with a recorded state tip; the pre-check
/// phase has a command to run.
pub open spec fn wf(m: ReviewV) -> bool {
    &&& match m.phase {
        PhaseV::RewindingInner { .. } | PhaseV::RewindingOuter { .. } => m.squashed && m.rewound,
        PhaseV::Finished => true,
        p => if post_squash(p) { m.squashed && !m.rewound } else { !m.squashed && !m.rewound },
    }
    &&& (m.phase is Pushing || m.phase is ResettingState) ==> m.pre_state is Some
    &&& m.phase is PreChecking ==> m.pre_check is Some
}

// ------------------------------------------------------------ the machine

fn dup(s: &String) -> (r: String)
    ensures
        r@ == s@,
{
    s.clone()
}

fn dup_opt(o: &Option<String>) -> (r: Option<String>)
    ensures
        opt_v(r) == opt_v(*o),
{
    match o {
        Some(s) => Some(s.clone()),
        None => None,
    }
}

impl Review {
    /// The invariant holds of this review.
    pub open spec fn valid(&self) -> bool {
        wf(self@)
    }
}

/// Submit task `id` for review: begin the review. `task_branch` and
/// `task_target` are the task's own fields; `deferred`, `repo_target_set` and
/// `pre_check` come from the configuration; `require_remote` from the claim
/// policy; `stealth` from the store. The caller performs each returned
/// [`ReviewAction`] and hands the outcome back to [`Review::step`].
pub fn review_worktree(
    id: String,
    task_branch: Option<String>,
    task_target: Option<String>,
    message: Option<String>,
    deferred: bool,
    repo_target_set: bool,
    pre_check: Option<String>,
    require_remote: bool,
    stealth: bool,
) -> (r: (Review, ReviewAction))
    ensures
        (r.0@, r.1@) == begin(
            id@,
            opt_v(task_branch),
            opt_v(task_target),
            opt_v(message),
            deferred,
            repo_target_set,
            opt_v(pre_check),
            require_remote,
            stealth,
        ),
        r.0.valid(),
{
    let branch = match task_branch {
        Some(b) => b,
        None => concat("work/", id.as_str()),
    };
    let refuse = deferred && task_target.is_none() && !repo_target_set;
    let mut r = Review {
        id,
        branch,
        task_target,
        message,
        pre_check,
        deferred,
        snapshot_state: require_remote && !stealth,
        main: String::new(),
        pre_main: String::new(),
        pre_state: None,
        delivered: None,
        marker: None,
        squashed: false,
        rewound: false,
        phase: Phase::Staging,
    };
    if refuse {
        r.phase = Phase::Finished;
        let e = BallError::Other(owned("delivery.mode=deferred requires an explicit target_branch (per-task via `bl create --target-branch`, or repo-level under the legacy layout) — the forge PR base must be unambiguous"));
        (r, ReviewAction::Fail(e))
    } else {
        (r, ReviewAction::StageUserChanges)
    }
}

impl Review {
    /// Whether the review is waiting for an event of this kind.
    pub fn accepts(&self, ev: &ReviewEvent) -> (r: bool)
        ensures
            r == accepts(self@, ev@),
    {
        match (&self.phase, ev) {
            (Phase::Finished, _) => false,
            (Phase::CommittingWip, _) | (Phase::RewindingInner { .. }, _) | (Phase::RewindingOuter { .. }, _)
            | (Phase::Noticing, _) | (Phase::ResettingState { .. }, _) | (Phase::Syncing, _) => true,
            (_, ReviewEvent::Failed(_)) => true,
            (Phase::Staging, ReviewEvent::Done) | (Phase::Deferring, ReviewEvent::Done) | (Phase::LoadingTask, ReviewEvent::Done) | (Phase::Flipping, ReviewEvent::Done)
            | (Phase::Noting, ReviewEvent::Done) | (Phase::Committing, ReviewEvent::Done) | (Phase::Pushing, ReviewEvent::Done) => true,
            (Phase::Resolving, ReviewEvent::Text(_)) | (Phase::SnapshottingMain, ReviewEvent::Text(_))
            | (Phase::SnapshottingState, ReviewEvent::Text(_)) | (Phase::ResolvingDefault, ReviewEvent::Text(_)) => true,
            (Phase::Merging, ReviewEvent::Merged { .. }) => true,
            (Phase::PreChecking, ReviewEvent::PreCheck { .. }) => true,
            (Phase::Squashing, ReviewEvent::Squashed(_)) => true,
            (Phase::CheckingRuntime, ReviewEvent::Touched(_)) => true,
            _ => false,
        }
    }

    fn fail(&mut self, e: BallError) -> (a: ReviewAction)
        ensures
            (final(self)@, a@) == fail(old(self)@, e@),
    {
        self.phase = Phase::Finished;
        ReviewAction::Fail(e)
    }

    fn rollback(&mut self, e: BallError) -> (a: ReviewAction)
        ensures
            (final(self)@, a@) == rollback(old(self)@, e@),
    {
        let main = dup(&self.main);
        let sha = dup(&self.pre_main);
        self.phase = Phase::RewindingOuter { err: e };
        self.rewound = true;
        ReviewAction::RewindMain { main, sha }
    }

    fn after_check(&mut self) -> (a: ReviewAction)
        ensures
            (final(self)@, a@) == after_check(old(self)@),
    {
        if self.deferred {
            self.phase = Phase::Deferring;
            ReviewAction::DeferredReview { branch: dup(&self.branch), target: dup(&self.main) }
        } else {
            self.phase = Phase::SnapshottingMain;
            ReviewAction::SnapshotMain { branch: dup(&self.main) }
        }
    }

    fn squash(&mut self) -> (a: ReviewAction)
        ensures
            (final(self)@, a@) == squash(old(self)@),
    {
        self.phase = Phase::Squashing;
        self.squashed = true;
        ReviewAction::Squash { branch: dup(&self.branch), main: dup(&self.main) }
    }

    fn flip(&mut self) -> (a: ReviewAction)
        ensures
            (final(self)@, a@) == flip(old(self)@),
    {
        self.phase = Phase::Flipping;
        ReviewAction::FlipTask { delivered: dup_opt(&self.delivered) }
    }

    fn after_delivery_check(&mut self) -> (a: ReviewAction)
        ensures
            (final(self)@, a@) == after_delivery_check(old(self)@),
    {
        self.phase = Phase::LoadingTask;
        ReviewAction::LoadTask
    }

    fn after_load(&mut self) -> (a: ReviewAction)
        ensures
            (final(self)@, a@) == after_load(old(self)@),
    {
        if self.delivered.is_some() && self.task_target.is_some() {
            self.phase = Phase::ResolvingDefault;
            ReviewAction::ResolveRepoDefault
        } else {
            self.marker = None;
            self.flip()
        }
    }

    fn commit_state(&mut self) -> (a: ReviewAction)
        ensures
            (final(self)@, a@) == commit_state(old(self)@),
    {
        let mut msg = concat("state: review ", self.id.as_str());
        if self.delivered.is_none() {
            msg.append(" no-code");
        } else {
            match &self.marker {
                Some(b) => {
                    msg.append(" target=");
                    msg.append(b.as_str());
                },
                None => {},
            }
        }
        self.phase = Phase::Committing;
        ReviewAction::CommitState { message: msg }
    }

    fn sync(&mut self) -> (a: ReviewAction)
        ensures
            (final(self)@, a@) == sync(old(self)@),
    {
        self.phase = Phase::Syncing;
        ReviewAction::SyncWorktree { main: dup(&self.main) }
    }

    /// Take one step: the decision for `ev`, as [`next`] states it.
    pub fn step(&mut self, ev: ReviewEvent) -> (a: ReviewAction)
        requires
            old(self).valid(),
            accepts(old(self)@, ev@),
        ensures
            (final(self)@, a@) == next(old(self)@, ev@),
            final(self).valid(),
    {
        proof {
            lemma_next_keeps_wf(self@, ev@);
        }
        let mut phase = Phase::Finished;
        std::mem::swap(&mut phase, &mut self.phase);
        match phase {
            Phase::Staging => match ev {
                ReviewEvent::Failed(e) => self.fail(e),
                _ => {
                    self.phase = Phase::CommittingWip;
                    ReviewAction::CommitWip { message: concat("wip: ", self.id.as_str()) }
                },
            },
            Phase::CommittingWip => {
                self.phase = Phase::Resolving;
                ReviewAction::ResolveIntegrationBranch { task_target: dup_opt(&self.task_target) }
            },
            Phase::Resolving => match ev {
                ReviewEvent::Text(main) => {
                    let b = dup(&main);
                    self.main = main;
                    self.phase = Phase::Merging;
                    ReviewAction::MergeIntegration { branch: b }
                },
                ReviewEvent::Failed(e) => self.fail(e),
                _ => {
                    self.phase = phase;
                    ReviewAction::Finish
                },
            },
            Phase::Merging => match ev {
                ReviewEvent::Merged { conflict } => {
                    if conflict {
                        let mut m = concat("conflicts merging ", self.main.as_str());
                        m.append(" into work/");
                        m.append(self.id.as_str());
                        m.append(". Resolve in worktree, then retry.");
                        self.fail(BallError::Conflict(m))
                    } else {
                        match &self.pre_check {
                            Some(cmd) => {
                                let c = dup(cmd);
                                self.phase = Phase::PreChecking;
                                ReviewAction::RunPreCheck { command: c }
                            },
                            None => self.after_check(),
                        }
                    }
                },
                ReviewEvent::Failed(e) => self.fail(e),
                _ => {
                    self.phase = phase;
                    ReviewAction::Finish
                },
            },
            Phase::PreChecking => match ev {
                ReviewEvent::PreCheck { success } => {
                    if success {
                        self.after_check()
                    } else {
                        let cmd = match &self.pre_check {
                            Some(c) => dup(c),
                            None => String::new(),
                        };
                        let mut m = concat("review pre-check failed: `", cmd.as_str());
                        m.append("` exited non-zero. No squash, no status change — fix it in the worktree and retry `bl review`.");
                        self.fail(BallError::Other(m))
                    }
                },
                ReviewEvent::Failed(e) => self.fail(e),
                _ => {
                    self.phase = phase;
                    ReviewAction::Finish
                },
            },
            Phase::Deferring => match ev {
                ReviewEvent::Failed(e) => self.fail(e),
                _ => {
                    self.phase = Phase::Finished;
                    ReviewAction::Finish
                },
            },
            Phase::SnapshottingMain => match ev {
                ReviewEvent::Text(sha) => {
                    self.pre_main = sha;
                    if self.snapshot_state {
                        self.phase = Phase::SnapshottingState;
                        ReviewAction::SnapshotState
                    } else {
                        self.squash()
                    }
                },
                ReviewEvent::Failed(e) => self.fail(e),
                _ => {
                    self.phase = phase;
                    ReviewAction::Finish
                },
            },
            Phase::SnapshottingState => match ev {
                ReviewEvent::Text(sha) => {
                    self.pre_state = Some(sha);
                    self.squash()
                },
                ReviewEvent::Failed(e) => self.fail(e),
                _ => {
                    self.phase = phase;
                    ReviewAction::Finish
                },
            },
            Phase::Squashing => match ev {
                ReviewEvent::Squashed(Some(sha)) => {
                    let s = dup(&sha);
                    self.delivered = Some(sha);
                    self.phase = Phase::CheckingRuntime;
                    ReviewAction::CheckRuntime { sha: s }
                },
                ReviewEvent::Squashed(None) => {
                    self.delivered = None;
                    self.phase = Phase::Noticing;
                    ReviewAction::Notice { text: concat("no code delivered — checkpoint review for ", self.id.as_str()) }
                },
                ReviewEvent::Failed(e) => self.rollback(e),
                _ => {
                    self.phase = phase;
                    ReviewAction::Finish
                },
            },
            Phase::CheckingRuntime => match ev {
                ReviewEvent::Touched(paths) => {
                    if paths.len() > 0 {
                        let err = runtime_in_squash_error(self.id.as_str(), paths.as_slice());
                        let main = dup(&self.main);
                        let sha = dup(&self.pre_main);
                        self.phase = Phase::RewindingInner { err };
                        self.rewound = true;
                        ReviewAction::RewindMain { main, sha }
                    } else {
                        self.after_delivery_check()
                    }
                },
                ReviewEvent::Failed(e) => self.rollback(e),
                _ => {
                    self.phase = phase;
                    ReviewAction::Finish
                },
            },
            Phase::RewindingInner { err } => self.rollback(err),
            Phase::RewindingOuter { err } => self.fail(err),
            Phase::Noticing => self.after_delivery_check(),
            Phase::LoadingTask => match ev {
                ReviewEvent::Failed(e) => self.rollback(e),
                _ => self.after_load(),
            },
            Phase::ResolvingDefault => match ev {
                ReviewEvent::Text(default) => {
                    if !str_eq(self.main.as_str(), default.as_str()) {
                        self.marker = Some(dup(&self.main));
                    } else {
                        self.marker = None;
                    }
                    self.flip()
                },
                ReviewEvent::Failed(e) => self.rollback(e),
                _ => {
                    self.phase = phase;
                    ReviewAction::Finish
                },
            },
            Phase::Flipping => match ev {
                ReviewEvent::Failed(e) => self.rollback(e),
                _ => match &self.message {
                    Some(text) => {
                        let t = dup(text);
                        self.phase = Phase::Noting;
                        ReviewAction::AppendNote { text: t }
                    },
                    None => self.commit_state(),
                },
            },
            Phase::Noting => match ev {
                ReviewEvent::Failed(e) => self.rollback(e),
                _ => self.commit_state(),
            },
            Phase::Committing => match ev {
                ReviewEvent::Failed(e) => self.rollback(e),
                _ => {
                    if self.pre_state.is_some() {
                        self.phase = Phase::Pushing;
                        ReviewAction::PushState
                    } else {
                        self.sync()
                    }
                },
            },
            Phase::Pushing => match ev {
                ReviewEvent::Failed(e) => {
                    let sha = match &self.pre_state {
                        Some(s) => dup(s),
                        None => String::new(),
                    };
                    self.phase = Phase::ResettingState { err: e };
                    ReviewAction::ResetState { sha }
                },
                _ => self.sync(),
            },
            Phase::ResettingState { err } => self.rollback(err),
            Phase::Syncing => {
                self.phase = Phase::Finished;
                ReviewAction::Finish
            },
            Phase::Finished => ReviewAction::Finish,
        }
    }
}

// ---------------------------------------------------------------- the laws

proof fn lemma_next_keeps_wf(m: ReviewV, ev: EventV)
    requires
        wf(m),
        accepts(m, ev),
    ensures
        wf(next(m, ev).0),
{
}

/// A review starts in a valid state, and a deferred-mode review with no
/// explicit target fails before any git work.
pub proof fn begin_is_valid(
    id: Seq<char>,
    task_branch: Option<Seq<char>>,
    task_target: Option<Seq<char>>,
    message: Option<Seq<char>>,
    deferred: bool,
    repo_target_set: bool,
    pre_check: Option<Seq<char>>,
    require_remote: bool,
    stealth: bool,
)
    ensures
        wf(begin(id, task_branch, task_target, message, deferred, repo_target_set, pre_check, require_remote, stealth).0),
        (deferred && task_target is None && !repo_target_set) <==> begin(id, task_branch, task_target, message, deferred, repo_target_set, pre_check, require_remote, stealth).1 is Fail,
{
}

/// Every step keeps the invariant.
pub proof fn step_keeps_invariant(m: ReviewV, ev: EventV)
    requires
        wf(m),
        accepts(m, ev),
    ensures
        wf(next(m, ev).0),
{
    lemma_next_keeps_wf(m, ev);
}

/// A review is observably atomic: it never reports failure after the squash
/// was asked for without having rewound the integration branch first, and
/// every rewind targets the recorded pre-review tip. A failure before the
/// squash leaves the integration branch untouched (no squash was asked for).
pub proof fn failure_after_squash_rewinds_main(m: ReviewV, ev: EventV)
    requires
        wf(m),
        accepts(m, ev),
    ensures
        next(m, ev).1 is Fail ==> (m.squashed ==> m.rewound),
        next(m, ev).1 is Fail ==> (!m.squashed ==> !next(m, ev).0.squashed),
        next(m, ev).1 matches ActionV::RewindMain { main, sha } ==> sha == m.pre_main && main == m.main && m.squashed,
{
}

/// A failing pre-check, a conflicting merge or a failing integration-branch
/// lookup fails the review before any squash, and no status changes.
pub proof fn gate_failures_precede_the_squash(m: ReviewV, ev: EventV)
    requires
        wf(m),
        accepts(m, ev),
        m.phase is PreChecking || m.phase is Merging || m.phase is Resolving,
    ensures
        !m.squashed,
        next(m, ev).1 is Fail || !next(m, ev).0.squashed,
{
}

/// A push failure of the state commit resets the state branch to its recorded
/// tip, then rewinds the integration branch, then fails.
pub proof fn push_failure_resets_state_then_rewinds(m: ReviewV, e: BallErrorV)
    requires
        wf(m),
        m.phase is Pushing,
    ensures
        next(m, EventV::Failed(e)).1 == (ActionV::ResetState { sha: m.pre_state->0 }),
        next(next(m, EventV::Failed(e)).0, EventV::Done).1 == (ActionV::RewindMain { main: m.main, sha: m.pre_main }),
        next(next(next(m, EventV::Failed(e)).0, EventV::Done).0, EventV::Done).1 == ActionV::Fail(e),
{
}

/// Review in no-git mode: no squash. The task is flipped to review and
/// touched at `now`, nothing else of it changing; the caller saves it,
/// appends the note given with the review (returned, if any), then commits
/// the task with the returned message.
pub fn review_no_git(task: &mut TaskRecord, message: Option<String>, now: i64) -> (r: (Option<String>, String))
    ensures
        *final(task) == (TaskRecord { status: Status::Review, updated_at: now, ..*old(task) }),
        opt_v(r.0) == opt_v(message),
        r.1@ == "state: review "@ + old(task).id@,
{
    task.status = Status::Review;
    task.updated_at = now;
    (message, concat("state: review ", task.id.as_str()))
}

} // verus!
