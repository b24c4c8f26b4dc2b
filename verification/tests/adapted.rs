//! Tests whose subject is a decision the library makes, fed with what git,
//! the disk or a decoder would have reported.

use balls::error::BallError;
use balls::gitout::GitOutput;
use balls::resolve::{conflict_sides, parsed_sides, resolve_conflict, Link, LinkType, Note, TaskRecord};
use balls::review::{review_worktree, ReviewAction, ReviewEvent};
use balls::seen::{guard, homes, work_gitdir, Guard};
use balls::speculate::{record, Verdict};
use balls::speculate_candidate::{merge_tree, Merge};
use balls::speculate_queue::{dequeue, enqueue, entry, queue, seal_args, Entry};
use balls::speculate_run::{run, Action, Event};
use balls::state_repo::{clone_outcome, first_contact, unreachable_tracker_err, CloneOutcome, FirstContact};
use balls::status::Status;
use balls::store::Store;
use balls::store_init::{check_tasks_dir, init_message, init_paths};
use balls::substrate::{materialize, Placement};
use balls::target::close_gated;
use balls::task::{Blocker, Task, Verb};

fn out(success: bool, code: i32, stdout: &str, stderr: &str) -> GitOutput {
    GitOutput { success, code: Some(code), stdout: stdout.to_string(), stderr: stderr.to_string() }
}

fn base(id: &str) -> TaskRecord {
    TaskRecord {
        id: id.to_string(),
        title: id.to_string(),
        status: Status::Open,
        updated_at: 1_000_000_000,
        notes: Vec::new(),
        claimed_by: None,
        closed_at: None,
        branch: None,
        tags: Vec::new(),
        depends_on: Vec::new(),
        links: Vec::new(),
        closed_children: Vec::new(),
        fields: Vec::new(),
    }
}

const HOUR: i64 = 3_600_000_000_000;

// ------------------------------------------------------------ resolve

#[test]
fn status_precedence_closed_wins() {
    let mut ours = base("a");
    ours.status = Status::InProgress;
    let mut theirs = base("a");
    theirs.status = Status::Closed;
    theirs.claimed_by = Some("bob".into());
    let merged = resolve_conflict(&ours, &theirs);
    assert!(merged.status.is_closed());
    assert_eq!(merged.claimed_by.as_deref(), Some("bob"));
}

#[test]
fn notes_are_unioned() {
    let mut ours = base("a");
    ours.notes.push(Note { ts: 1, author: "alice".into(), text: "hello".into() });
    let mut theirs = base("a");
    theirs.notes.push(Note { ts: 2, author: "bob".into(), text: "world".into() });
    let merged = resolve_conflict(&ours, &theirs);
    assert_eq!(merged.notes.len(), 2);
}

#[test]
fn later_updated_at_wins_for_fields() {
    let mut ours = base("a");
    ours.title = "old".into();
    ours.updated_at = 10 * HOUR - HOUR;
    let mut theirs = base("a");
    theirs.title = "new".into();
    theirs.updated_at = 10 * HOUR;
    let merged = resolve_conflict(&ours, &theirs);
    assert_eq!(merged.title, "new");
}

#[test]
fn duplicate_notes_are_deduped() {
    let ts = 5 * HOUR;
    let mut ours = base("a");
    ours.notes.push(Note { ts, author: "x".into(), text: "dup".into() });
    let mut theirs = base("a");
    theirs.notes.push(Note { ts, author: "x".into(), text: "dup".into() });
    let merged = resolve_conflict(&ours, &theirs);
    assert_eq!(merged.notes.len(), 1);
}

#[test]
fn tags_union() {
    let mut ours = base("a");
    ours.tags = vec!["x".into(), "y".into()];
    ours.updated_at = 10 * HOUR;
    let mut theirs = base("a");
    theirs.tags = vec!["y".into(), "z".into()];
    theirs.updated_at = 9 * HOUR;
    let merged = resolve_conflict(&ours, &theirs);
    assert!(merged.tags.contains(&"x".to_string()));
    assert!(merged.tags.contains(&"y".to_string()));
    assert!(merged.tags.contains(&"z".to_string()));
}

#[test]
fn deps_union() {
    let mut ours = base("a");
    ours.depends_on = vec!["a".into(), "b".into()];
    ours.updated_at = 10 * HOUR;
    let mut theirs = base("a");
    theirs.depends_on = vec!["b".into(), "c".into()];
    theirs.updated_at = 9 * HOUR;
    let merged = resolve_conflict(&ours, &theirs);
    assert_eq!(merged.depends_on.len(), 3);
}

#[test]
fn claimed_by_first_writer_when_not_closed() {
    let mut ours = base("a");
    ours.claimed_by = Some("alice".into());
    ours.updated_at = 9 * HOUR;
    let mut theirs = base("a");
    theirs.claimed_by = Some("bob".into());
    theirs.updated_at = 10 * HOUR;
    let merged = resolve_conflict(&ours, &theirs);
    assert_eq!(merged.claimed_by.as_deref(), Some("alice"));
}

#[test]
fn links_union() {
    let mut ours = base("a");
    ours.links = vec![Link { link_type: LinkType::RelatesTo, target: "x".into() }];
    ours.updated_at = 10 * HOUR;
    let mut theirs = base("a");
    theirs.links = vec![Link { link_type: LinkType::Duplicates, target: "y".into() }];
    theirs.updated_at = 9 * HOUR;
    let merged = resolve_conflict(&ours, &theirs);
    assert_eq!(merged.links.len(), 2);
}

fn decode(side: &str) -> Result<TaskRecord, String> {
    let v: serde_json::Value = serde_json::from_str(side).map_err(|e| e.to_string())?;
    let id = v.get("id").and_then(|x| x.as_str()).ok_or("missing field `id`")?;
    Ok(base(id))
}

#[test]
fn parse_markers_roundtrip() {
    let j = "{\n  \"id\": \"a\"\n}";
    let conflict = format!("<<<<<<< HEAD\n{j}\n=======\n{j}\n>>>>>>> theirs\n");
    let (o, t) = conflict_sides(&conflict);
    let (ours, theirs) = parsed_sides(decode(&o), decode(&t)).unwrap();
    assert_eq!(ours.id, "a");
    assert_eq!(theirs.id, "a");
}

#[test]
fn parse_markers_invalid_returns_conflict_error() {
    let conflict = "<<<<<<< HEAD\nnot json\n=======\nnot json either\n>>>>>>> theirs\n";
    let (o, t) = conflict_sides(conflict);
    let err = parsed_sides(decode(&o), decode(&t)).unwrap_err();
    assert!(matches!(err, BallError::Conflict(_)));
}

// ------------------------------------------------------------ target

fn ball(parent: Option<&str>, gates: &[&str]) -> Task {
    Task {
        title: "T".into(),
        created: 0,
        updated: 0,
        claimant: None,
        parent: parent.map(str::to_string),
        priority: None,
        blockers: gates.iter().map(|id| Blocker { id: (*id).to_string(), on: Verb::Close }).collect(),
        tags: Vec::new(),
        extra: Vec::new(),
        body: String::new(),
    }
}

#[test]
fn close_gating_the_parent_is_what_declares_nesting() {
    assert!(close_gated("bl-kid", &ball(None, &["bl-kid"])));
    assert!(!close_gated("bl-kid", &ball(None, &["bl-other"])));
    assert!(!close_gated("bl-kid", &ball(None, &[])));
    let mut claim_gated = ball(None, &[]);
    claim_gated.blockers = vec![Blocker { id: "bl-kid".into(), on: Verb::Claim }];
    assert!(!close_gated("bl-kid", &claim_gated));
}

#[test]
fn a_ball_close_gating_its_live_parent_targets_that_parent() {
    let epic = ball(None, &["bl-kid"]);
    let kid = ball(Some("bl-epic"), &[]);
    assert_eq!(balls::target::derive(Some("bl-kid"), Some(&kid), Some(&epic)), Some("bl-epic".into()));
}

#[test]
fn nesting_needs_both_coordinates_so_either_alone_delivers_flat() {
    let ungated = ball(None, &[]);
    let kid = ball(Some("bl-epic"), &[]);
    assert_eq!(balls::target::derive(Some("bl-kid"), Some(&kid), Some(&ungated)), None);
    let orphan = ball(None, &[]);
    assert_eq!(balls::target::derive(Some("bl-kid"), Some(&orphan), None), None);
}

#[test]
fn a_closed_parent_gates_nothing_and_create_has_no_ball_at_all() {
    let kid = ball(Some("bl-gone"), &[]);
    assert_eq!(balls::target::derive(Some("bl-kid"), Some(&kid), None), None);
    assert_eq!(balls::target::derive(Some("bl-kid"), None, None), None);
    let epic = ball(None, &["bl-kid"]);
    assert_eq!(balls::target::derive(None, Some(&ball(Some("bl-epic"), &[])), Some(&epic)), None);
}

// ------------------------------------------------------------ store

fn legacy(target_branch: Option<&str>) -> (Store, Option<String>) {
    (Store::legacy_with("/r".into(), "/t".into(), "/s".into(), "balls/tasks".into(), false), target_branch.map(str::to_string))
}

fn xdg() -> Store {
    Store::xdg_with(
        "/r".into(), false, false, "/t".into(), "/k".into(), "balls/tasks".into(), "/c".into(), "/l".into(),
        "/p".into(), "/w".into(), "/repo.json".into(), "/project.json".into(),
    )
}

#[test]
fn explicit_repo_target_branch_is_none_under_xdg() {
    assert_eq!(xdg().explicit_repo_target_branch(None), None);
}

#[test]
fn explicit_repo_target_branch_carries_legacy_field() {
    let (store, cfg) = legacy(Some("develop"));
    assert_eq!(store.explicit_repo_target_branch(cfg).as_deref(), Some("develop"));
}

#[test]
fn integration_branch_for_returns_task_target_when_set() {
    let head = Err(BallError::NotARepo);
    assert_eq!(xdg().integration_branch_for(Some("hotfix"), None, head).unwrap(), "hotfix");
}

#[test]
fn integration_branch_falls_back_to_legacy_repo_target_branch() {
    let (store, cfg) = legacy(Some("develop"));
    assert_eq!(store.integration_branch(cfg, Ok("main".into())).unwrap(), "develop");
}

#[test]
fn integration_branch_falls_through_to_head_when_no_overrides() {
    assert_eq!(xdg().integration_branch(None, Ok("feature/foo".into())).unwrap(), "feature/foo");
}

#[test]
fn store_init_legacy_rejects_relative_tasks_dir() {
    let err = check_tasks_dir(Some("rel/path")).expect_err("relative --tasks-dir must error");
    assert!(matches!(&err, BallError::Other(m) if m.contains("must be an absolute path")), "got: {err:?}");
}

#[test]
fn non_stealth_commits_config_and_gitignore() {
    let files = init_paths(false);
    assert!(files.contains(&".balls/config.json".to_string()));
    assert!(files.contains(&".gitignore".to_string()));
    assert!(!files.iter().any(|f| f.contains(".gitkeep")));
    assert_eq!(init_message(false), "balls: initialize");
}

#[test]
fn stealth_seeds_and_stages_the_plugins_gitkeep() {
    assert!(init_paths(true).contains(&".balls/plugins/.gitkeep".to_string()));
}

#[test]
fn reinitialize_uses_reinitialize_subject() {
    assert_eq!(init_message(true), "balls: reinitialize");
}

// ------------------------------------------------------------ substrate

#[test]
fn materialize_founds_an_orphan_store_when_the_branch_is_absent() {
    assert!(materialize("balls/tasks", false, None) == (true, Placement::Add));
}

#[test]
fn materialize_checks_out_an_existing_branch_instead_of_founding() {
    assert!(materialize("balls/tasks", true, None) == (false, Placement::Add));
}

#[test]
fn materialize_is_idempotent_once_the_store_exists() {
    assert!(materialize("balls/tasks", true, Some("balls/tasks\n")) == (false, Placement::Keep));
}

#[test]
fn materialize_switches_an_existing_store_onto_a_repointed_branch_ref() {
    assert!(materialize("balls/other", true, Some("balls/tasks\n")) == (false, Placement::Switch));
}

#[test]
fn materialize_founds_the_repointed_branch_when_no_ref_exists() {
    assert!(materialize("balls/fresh", false, Some("balls/tasks\n")) == (true, Placement::Switch));
}

// ------------------------------------------------------------ seen

#[test]
fn guard_refuses_a_store_whose_task_file_is_not_at_the_tip() {
    match guard("bl-7", None, None) {
        Guard::Refuse(m) => assert!(m.contains("not at the store tip"), "{m}"),
        other => panic!("expected a refusal, got {other:?}"),
    }
}

#[test]
fn a_closer_who_never_touched_the_ball_sees_the_whole_file_once() {
    assert!(matches!(guard("bl-7", Some("blob1".into()), None), Guard::Look { cur } if cur == "blob1"));
    let msg = balls::seen::refusal("bl-7", "+whole content\n");
    assert!(msg.contains("changed since your last touch"), "{msg}");
    assert!(msg.contains("+whole content"), "{msg}");
}

#[test]
fn the_union_dedups_when_standing_in_the_tasks_own_worktree() {
    let wt = "/proj/.git/worktrees/bl-7".to_string();
    let cur = work_gitdir(Some("work/bl-7\n"), Some(wt.clone()), Some("/proj/.git".into()));
    let h = homes("/store/.git".into(), Some("/proj/.git".into()), cur, "bl-7");
    assert_eq!(h, vec!["/store/.git".to_string(), wt]);
}

#[test]
fn a_work_branch_at_the_repo_root_is_not_bl_territory() {
    assert_eq!(work_gitdir(Some("work/bl-7\n"), Some("/proj/.git".into()), Some("/proj/.git".into())), None);
}

// ------------------------------------------------------------ state checkout

#[test]
fn ensure_clones_from_reachable_tracker_and_tracks_state_branch() {
    assert!(matches!(first_contact(false, true), FirstContact::Clone));
    assert!(matches!(clone_outcome(true, true, true), CloneOutcome::Track));
}

#[test]
fn ensure_implicit_default_no_url_inits_a_local_orphan() {
    assert!(matches!(first_contact(false, false), FirstContact::LocalOrphan));
}

#[test]
fn ensure_explicit_unreachable_tracker_hard_fails() {
    let url = "/no/such/explicit/tracker.git";
    assert!(matches!(clone_outcome(false, true, false), CloneOutcome::Unreachable));
    let err = unreachable_tracker_err(url, "fatal: not found");
    let msg = match &err {
        BallError::Other(m) => m.clone(),
        other => panic!("{other:?}"),
    };
    assert!(msg.contains(url), "names the URL: {msg}");
    assert!(msg.contains("could not reach state tracker"), "{msg}");
    assert!(msg.contains("remaster --detach"), "offers the escape hatch: {msg}");
    assert!(msg.contains("state_url"), "names the config field: {msg}");
}

#[test]
fn ensure_implicit_unreachable_falls_back_to_a_local_orphan() {
    assert!(matches!(clone_outcome(false, false, false), CloneOutcome::OfflineOrphan));
}

#[test]
fn ensure_seeds_an_orphan_when_the_tracker_has_no_state_branch() {
    assert!(matches!(clone_outcome(true, true, false), CloneOutcome::Publish));
}

// ------------------------------------------------------------ speculation

const C1: &str = "1111111111111111111111111111111111111111";
const C2: &str = "2222222222222222222222222222222222222222";
const TREE: &str = "3333333333333333333333333333333333333333";

#[test]
fn clean_merge_yields_a_tree_and_conflict_says_so() {
    match merge_tree(&out(true, 0, &format!("{TREE}\n"), "")).unwrap() {
        Merge::Tree(tree) => assert_eq!(tree.len(), 40, "a full tree oid"),
        Merge::Conflict => panic!("disjoint edits must merge clean"),
    }
    let conflicted = out(false, 1, &format!("{TREE}\n\nCONFLICT (content): Merge conflict in shared\n"), "");
    assert!(matches!(merge_tree(&conflicted).unwrap(), Merge::Conflict));
}

#[test]
fn a_moved_branch_is_unsealed_and_a_deleted_one_too() {
    let listing = queue(&format!("merging/a {C1}\nmerging/b {C1}\n")).unwrap();
    let moved = entry(listing[0].0.clone(), listing[0].1.clone(), &out(true, 0, &format!("{C2}\n"), ""));
    let deleted = entry(listing[1].0.clone(), listing[1].1.clone(), &out(false, 1, "", ""));
    assert_eq!((moved.id.as_str(), moved.sealed), ("a", false));
    assert_eq!((deleted.id.as_str(), deleted.sealed), ("b", false));
    assert_eq!(moved.tip, C1, "the SEALED tip is reported, not the runaway one");
}

#[test]
fn order_is_taggerdate_and_reenqueue_requeues_at_bottom() {
    let tip = enqueue(&out(true, 0, &format!("{C1}\n"), "")).unwrap();
    assert_eq!(tip, C1, "enqueue reports the sealed tip");
    assert!(seal_args("a", &tip).contains(&"--force".to_string()), "a re-seal replaces the tag");
    let first = queue(&format!("merging/a {C1}\nmerging/b {C1}\n")).unwrap();
    assert_eq!(first.iter().map(|e| e.0.as_str()).collect::<Vec<_>>(), vec!["a", "b"]);
    let again = queue(&format!("merging/b {C1}\nmerging/a {C1}\n")).unwrap();
    assert_eq!(again.iter().map(|e| e.0.as_str()).collect::<Vec<_>>(), vec!["b", "a"], "re-enqueue IS requeue at bottom");
}

#[test]
fn same_second_ties_break_by_refname() {
    let args = balls::speculate_queue::queue_listing_args();
    let refname = args.iter().position(|a| a == "--sort=refname").unwrap();
    let taggerdate = args.iter().position(|a| a == "--sort=taggerdate").unwrap();
    assert!(refname < taggerdate, "the tagger date is the primary key, the name breaks ties");
    let listed = queue(&format!("merging/a {C1}\nmerging/b {C1}\n")).unwrap();
    assert_eq!(listed.iter().map(|e| e.0.as_str()).collect::<Vec<_>>(), vec!["a", "b"], "deterministic even when taggerdates collide");
}

#[test]
fn dequeue_is_the_only_exit_and_absence_errors() {
    assert!(dequeue(&out(true, 0, "Deleted tag 'merging/a'\n", "")).is_ok());
    assert!(queue("").unwrap().is_empty());
    let err = dequeue(&out(false, 1, "", "error: tag 'merging/a' not found.\n")).unwrap_err();
    assert!(err.contains("git tag -d"), "dequeuing an absent entry is loud: {err}");
}

#[test]
fn worktree_oid_outside_a_repo_reports_gits_voice() {
    let failed = out(false, 128, "", "fatal: not a git repository\n");
    let err = balls::speculate::worktree_oid(&failed, &failed).unwrap_err();
    assert!(err.contains("git add -A"), "names the failing act: {err}");
}

#[test]
fn current_in_non_git_dir_falls_back_to_basename() {
    assert_eq!(balls::repo_url::current(false, "", "/tmp/somewhere/proj"), "proj");
}

fn sealed(id: &str, tip: &str) -> Entry {
    Entry { id: id.to_string(), tip: tip.to_string(), sealed: true }
}

/// Drive one pass where every merge is clean, reading verdicts from `cache`
/// and running builds that end with `gate_passes`; returns the report and
/// how many builds ran.
fn drive(entries: Vec<Entry>, builds: usize, cache: &mut Vec<(String, Verdict)>, gate_passes: bool, conflict_on: &str) -> (Vec<String>, usize) {
    let (mut p, mut a) = run("base".into(), entries, builds);
    let mut ran = 0;
    let mut n = 0;
    loop {
        let ev = match a {
            Action::Dequeue { .. } => Event::Dequeued,
            Action::MergeTree { tip, .. } => {
                if tip == conflict_on { Event::Merged(Merge::Conflict) } else { Event::Merged(Merge::Tree(format!("tree-{tip}"))) }
            },
            Action::CommitTree { tree, .. } => {
                n += 1;
                Event::Committed(format!("cand{n}-{tree}"))
            },
            Action::ReadVerdict { tree } => {
                Event::VerdictRead(cache.iter().find(|(t, _)| *t == tree).map(|(_, v)| record(v.pass, &v.builder)))
            },
            Action::Build { .. } => {
                ran += 1;
                Event::Built(gate_passes)
            },
            Action::WriteVerdict { tree, verdict } => {
                cache.push((tree, verdict));
                Event::VerdictWritten
            },
            Action::Adopt => Event::Adopted(vec![("hostile".to_string(), "th-unqueued".to_string())]),
            Action::Done => return (p.report().clone(), ran),
        };
        assert!(p.accepts(&ev));
        a = p.step(ev);
    }
}

#[test]
fn builds_head_first_then_hits_and_the_second_pass_spends_nothing() {
    let mut cache = Vec::new();
    let (report, ran) = drive(vec![sealed("a", "ta"), sealed("b", "tb")], 10, &mut cache, true, "");
    assert_eq!(report.len(), 2, "{report:?}");
    assert!(report[0].starts_with("built a ") && report[0].ends_with(" pass"), "{report:?}");
    assert!(report[1].starts_with("built b "), "{report:?}");
    assert_eq!(ran, 2);
    let (again, ran) = drive(vec![sealed("a", "ta"), sealed("b", "tb")], 10, &mut cache, true, "");
    assert!(again[0].starts_with("hit a ") && again[1].starts_with("hit b "), "{again:?}");
    assert_eq!(ran, 0, "hits spend no gates");
}

#[test]
fn budget_defers_and_a_failing_gate_stops_the_chain() {
    let mut cache = Vec::new();
    let (report, _) = drive(vec![sealed("a", "ta"), sealed("b", "tb")], 0, &mut cache, false, "");
    assert_eq!(report, vec!["deferred a (builds spent)"], "builds=0 is plan-only");
    let (report, ran) = drive(vec![sealed("a", "ta"), sealed("b", "tb")], 10, &mut cache, false, "");
    assert!(report[0].starts_with("built a ") && report[0].contains("FAIL"), "{report:?}");
    assert_eq!(report.len(), 1, "a failing prefix ends the pass: {report:?}");
    assert_eq!(ran, 1);
    let (report, ran) = drive(vec![sealed("a", "ta"), sealed("b", "tb")], 10, &mut cache, false, "");
    assert!(report[0].starts_with("fail a "), "the recorded FAIL stops later passes too");
    assert_eq!(ran, 0, "the fail was built once, never again");
}

#[test]
fn conflicts_stop_the_chain_and_the_unsealed_are_swept() {
    let mut cache = Vec::new();
    let (report, _) = drive(vec![sealed("hostile", "th"), sealed("a", "ta")], 10, &mut cache, true, "th");
    assert!(report[0].starts_with("conflict hostile"), "{report:?}");
    assert_eq!(report.len(), 1, "nothing builds past a conflict");
    let swept = Entry { id: "hostile".into(), tip: "th".into(), sealed: false };
    let (report, _) = drive(vec![swept, sealed("a", "ta")], 10, &mut cache, true, "th");
    assert_eq!(report[0], "swept hostile (unsealed)", "{report:?}");
    assert!(report[1].starts_with("built a "), "the queue heals past the swept: {report:?}");
}

// ------------------------------------------------------------ review pre-check

fn to_merge(pre_check: Option<&str>) -> (balls::review::Review, ReviewAction) {
    let (mut r, a) = review_worktree("bl-1".into(), None, None, None, false, false, pre_check.map(str::to_string), false, false);
    assert!(matches!(a, ReviewAction::StageUserChanges));
    assert!(matches!(r.step(ReviewEvent::Done), ReviewAction::CommitWip { .. }));
    assert!(matches!(r.step(ReviewEvent::Done), ReviewAction::ResolveIntegrationBranch { .. }));
    assert!(matches!(r.step(ReviewEvent::Text("main".into())), ReviewAction::MergeIntegration { .. }));
    let a = r.step(ReviewEvent::Merged { conflict: false });
    (r, a)
}

#[test]
fn unset_pre_check_is_a_no_op() {
    let (_, a) = to_merge(None);
    assert!(matches!(a, ReviewAction::SnapshotMain { .. }));
}

#[test]
fn zero_exit_passes() {
    let (mut r, a) = to_merge(Some("true"));
    assert!(matches!(a, ReviewAction::RunPreCheck { command } if command == "true"));
    assert!(matches!(r.step(ReviewEvent::PreCheck { success: true }), ReviewAction::SnapshotMain { .. }));
}

#[test]
fn non_zero_exit_aborts_with_fix_it_message() {
    let (mut r, _) = to_merge(Some("exit 7"));
    match r.step(ReviewEvent::PreCheck { success: false }) {
        ReviewAction::Fail(BallError::Other(msg)) => {
            assert!(msg.contains("review pre-check failed"), "got: {msg}");
            assert!(msg.contains("retry `bl review`"), "got: {msg}");
        },
        _ => panic!("expected the pre-check failure"),
    }
}

// ------------------------------------------------------------ id minting

fn generate(t: i64) -> String {
    format!("bl-{:04x}", t % 0x10000)
}

#[test]
fn returns_first_id_when_unused() {
    let now = 1_700_000_000_000i64;
    let id = balls::task_id::next_unique_id(now, &generate, &|_: &str| false).unwrap();
    assert_eq!(id, generate(now));
}

#[test]
fn retries_past_collision() {
    let now = 1_700_000_000_000i64;
    let first = generate(now);
    let taken = vec![first.clone()];
    let id = balls::task_id::next_unique_id(now, &generate, &|c: &str| taken.iter().any(|t| t == c)).unwrap();
    assert_ne!(id, first);
    assert_eq!(id, generate(now + 1));
}

#[test]
fn exhausts_after_1000_tries() {
    let calls = std::cell::RefCell::new(0usize);
    let err = balls::task_id::next_unique_id(1_700_000_000_000i64, &generate, &|_: &str| {
        *calls.borrow_mut() += 1;
        true
    })
    .unwrap_err();
    match err {
        BallError::Other(s) => assert!(s.contains("1000 tries")),
        other => panic!("expected Other, got {other:?}"),
    }
    assert!(*calls.borrow() > 1000);
}

#[test]
fn a_missing_landing_branch_is_loud() {
    let args = balls::speculate_run::base_commit_args("ghost");
    assert_eq!(args, vec!["rev-parse".to_string(), "--verify".to_string(), "refs/heads/ghost".to_string()]);
    let err = balls::speculate_run::base_commit("ghost", &out(false, 128, "", "fatal: Needed a single revision\n")).unwrap_err();
    assert!(err.contains("rev-parse ghost"), "{err}");
    assert_eq!(balls::speculate_run::base_commit("main", &out(true, 0, "abc\n", "")).unwrap(), "abc");
}
