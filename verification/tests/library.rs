use balls::error::BallError;
use balls::gitout::GitOutput;
use balls::resolve::{conflict_sides, parsed_sides, resolve_conflict, Link, LinkType, Note, TaskRecord};
use balls::review_close::{
    close_message, close_worktree, enforce_gates, gate_targets, open_gate_blockers, CloseAction, CloseEvent,
};
use balls::review_deferred::{create_message, gate_description, gate_notice, gate_parent, gate_title, gated_notice, pushed_notice, review_message};
use balls::review_safety::commit_touches_runtime;
use balls::review_deferred::{deferred_review, DeferredAction as A, DeferredEvent as E};
use balls::safegit::reject_option_like;
use balls::seed::rebind;
use balls::seen::{anchor_from_log, guard, homes, seen_tokens, token_path, work_gitdir, Guard};
use balls::skill::usage;
use balls::speculate::worktree_oid;
use balls::state_repo::{align_warm_branch, fetch_origin};
use balls::status::Status;
use balls::store::{Layout, Store};
use balls::store_init::{bare_target, check_tasks_dir, init_message, init_paths, init_root, init_state_branch, init_uses_stealth, tasks_symlink_step, tracker_clone, SymlinkStep};
use balls::store_init_xdg::{init, require_origin, InitShape};
use balls::substrate::{gitkeep_entry, landing_ref, materialize, tasks_entry, Placement};
use balls::sync_resolve::{conflict_kind, ConflictKind};
use balls::target::close_gated;
use balls::task::{split_frontmatter, Blocker, ParseError, Task, Verb};
use balls::store_archive::is_task_file;
use balls::store_paths::stealth_tasks_override;
use balls::task_io::serialize_mergeable;

fn ok(stdout: &str) -> GitOutput {
    GitOutput { success: true, code: Some(0), stdout: stdout.to_string(), stderr: String::new() }
}

fn failed(stderr: &str) -> GitOutput {
    GitOutput { success: false, code: Some(1), stdout: String::new(), stderr: stderr.to_string() }
}

fn record(id: &str, status: Status, updated_at: i64, notes: Vec<Note>) -> TaskRecord {
    TaskRecord {
        id: id.to_string(),
        title: "T".to_string(),
        status,
        updated_at,
        notes,
        claimed_by: None,
        closed_at: None,
        branch: None,
        tags: Vec::new(),
        depends_on: Vec::new(),
        links: Vec::new(),
        closed_children: Vec::new(),
        fields: Vec::new(),
    }
}

fn note(ts: i64, text: &str) -> Note {
    Note { ts, author: "a".to_string(), text: text.to_string() }
}

fn task(parent: Option<&str>, gates: &[(&str, Verb)]) -> Task {
    Task {
        title: "T".to_string(),
        created: 0,
        updated: 0,
        claimant: None,
        parent: parent.map(str::to_string),
        priority: None,
        blockers: gates.iter().map(|(id, on)| Blocker { id: id.to_string(), on: *on }).collect(),
        tags: Vec::new(),
        extra: Vec::new(),
        body: String::new(),
    }
}

// ------------------------------------------------------------ conflicts

#[test]
fn conflict_sides_split_hunks_and_share_the_rest() {
    let content = "{\n<<<<<<< ours\n  \"a\": 1\n=======\n  \"a\": 2\n>>>>>>> theirs\n}\n";
    let (o, t) = conflict_sides(content);
    assert_eq!(o, "{\n  \"a\": 1\n}\n");
    assert_eq!(t, "{\n  \"a\": 2\n}\n");
}

#[test]
fn unconflicted_file_gives_equal_sides() {
    let (o, t) = conflict_sides("line one\r\nline two");
    assert_eq!(o, "line one\nline two\n");
    assert_eq!(o, t);
}

#[test]
fn unparsable_sides_are_named() {
    let r = parsed_sides(Err("bad".to_string()), Ok(record("x", Status::Open, 0, vec![])));
    assert!(matches!(r, Err(BallError::Conflict(m)) if m == "could not parse 'ours' side: bad"));
    let r = parsed_sides(Ok(record("x", Status::Open, 0, vec![])), Err("worse".to_string()));
    assert!(matches!(r, Err(BallError::Conflict(m)) if m == "could not parse 'theirs' side: worse"));
    let r = parsed_sides(Ok(record("x", Status::Open, 0, vec![])), Ok(record("y", Status::Open, 0, vec![])));
    assert!(matches!(r, Ok((a, b)) if a.id == "x" && b.id == "y"));
}

#[test]
fn resolution_keeps_both_sides_notes_and_the_higher_status() {
    let ours = record("bl-1", Status::Closed, 10, vec![note(1, "a"), note(3, "c")]);
    let theirs = record("bl-1", Status::InProgress, 20, vec![note(2, "b"), note(1, "a")]);
    let r = resolve_conflict(&ours, &theirs);
    assert!(r.status.is_closed());
    assert_eq!(r.updated_at, 20);
    let texts: Vec<&str> = r.notes.iter().map(|n| n.text.as_str()).collect();
    assert_eq!(texts, vec!["a", "b", "c"]);
}

#[test]
fn conflicted_files_are_classified() {
    let r = conflict_kind("/s", "/s/.balls/tasks/bl-1.json").unwrap();
    assert!(r.0 == ConflictKind::Task && r.1 == ".balls/tasks/bl-1.json");
    let r = conflict_kind("/s", "/s/.balls/tasks/bl-1.notes.jsonl").unwrap();
    assert!(r.0 == ConflictKind::Notes);
    let e = conflict_kind("/s", "/s/README.md").unwrap_err();
    assert!(matches!(e, BallError::Conflict(m) if m == "unhandled conflict in /s/README.md"));
}

// ------------------------------------------------------------ layout

#[test]
fn mergeable_layout_sorts_keys_and_drops_notes() {
    let fields = vec![
        ("title".to_string(), "\"T\"".to_string()),
        ("notes".to_string(), "[]".to_string()),
        ("id".to_string(), "\"bl-1\"".to_string()),
    ];
    let s = serialize_mergeable(&fields).unwrap();
    assert_eq!(s, "{\n  \"id\": \"bl-1\",\n  \"title\": \"T\"\n}\n");
}

#[test]
fn mergeable_layout_quotes_keys_as_json() {
    let fields = vec![("we\"ird".to_string(), "1".to_string())];
    let s = serialize_mergeable(&fields).unwrap();
    assert_eq!(s, "{\n  \"we\\\"ird\": 1\n}\n");
    assert_eq!(serialize_mergeable(&Vec::new()).unwrap(), "{\n}\n");
    let fields = vec![("a\\b\n\u{1}\u{1f}\t\u{8}\u{c}\ré".to_string(), "2".to_string())];
    let s = serialize_mergeable(&fields).unwrap();
    assert_eq!(s, "{\n  \"a\\\\b\\n\\u0001\\u001f\\t\\b\\f\\ré\": 2\n}\n");
}

// ------------------------------------------------------------ seen

#[test]
fn anchor_is_the_newest_commit_of_the_actor() {
    let log = "aaa\u{1f}bob\nbbb\u{1f} alice \nccc\u{1f}alice\n";
    assert_eq!(anchor_from_log(log, "alice"), Some("bbb".to_string()));
    assert_eq!(anchor_from_log(log, "carol"), None);
    assert_eq!(anchor_from_log("no separator\n", "no"), None);
}

#[test]
fn work_gitdir_only_in_a_linked_work_worktree() {
    let d = Some("/r/.git/worktrees/bl-1".to_string());
    let c = Some("/r/.git".to_string());
    assert_eq!(work_gitdir(Some("work/bl-1\n"), d.clone(), c.clone()), d);
    assert_eq!(work_gitdir(Some("main\n"), d.clone(), c.clone()), None);
    assert_eq!(work_gitdir(Some("work/x"), c.clone(), c.clone()), None);
    assert_eq!(work_gitdir(None, d, c), None);
}

#[test]
fn token_homes_are_deduplicated() {
    let h = homes("/s/.git".to_string(), Some("/r/.git".to_string()), Some("/r/.git/worktrees/bl-1".to_string()), "bl-1");
    assert_eq!(h, vec!["/s/.git".to_string(), "/r/.git/worktrees/bl-1".to_string()]);
    assert_eq!(token_path("/s/.git", "bl-1"), "/s/.git/balls-seen/bl-1");
}

#[test]
fn tokens_match_the_current_blob_only() {
    let c = vec![
        ("/a".to_string(), Some("abc\n".to_string())),
        ("/b".to_string(), Some("old\n".to_string())),
        ("/c".to_string(), None),
    ];
    assert_eq!(seen_tokens("abc", c), vec!["/a".to_string()]);
}

#[test]
fn guard_passes_unchanged_content_and_refuses_a_missing_file() {
    assert!(matches!(guard("bl-1", Some("x".into()), Some("x".into())), Guard::Pass));
    assert!(matches!(guard("bl-1", Some("x".into()), Some("y".into())), Guard::Look { cur } if cur == "x"));
    assert!(matches!(guard("bl-1", Some("x".into()), None), Guard::Look { .. }));
    match guard("bl-1", None, None) {
        Guard::Refuse(m) => assert!(m.starts_with("close bl-1: tasks/bl-1.md is not at the store tip")),
        _ => panic!("expected a refusal"),
    }
}

// ------------------------------------------------------------ store

#[test]
fn legacy_store_paths_live_under_dot_balls() {
    let s = Store::legacy_with("/r".into(), "/r/.balls/state-repo/.balls/tasks".into(), "/r/.balls/state-repo".into(), "balls/tasks".into(), false);
    assert_eq!(s.claims_dir(), "/r/.balls/local/claims");
    assert_eq!(s.lock_dir(), "/r/.balls/local/lock");
    assert_eq!(s.local_plugins_dir(), "/r/.balls/local/plugins");
    assert_eq!(s.config_path(), "/r/.balls/config.json");
    assert_eq!(s.project_config_path(), "/r/.balls/project.json");
    assert_eq!(s.plugin_config_root(), "/r");
    assert_eq!(s.worktrees_root(".balls-worktrees"), "/r/.balls-worktrees");
    assert_eq!(s.layout, Layout::Legacy);
    assert_eq!(s.commit_task("bl-1"), Some((".balls/tasks/bl-1.json".to_string(), ".balls/tasks/bl-1.notes.jsonl".to_string())));
}

#[test]
fn integration_branch_chain() {
    let legacy = Store::legacy_with("/r".into(), "/t".into(), "/s".into(), "b".into(), true);
    assert_eq!(legacy.commit_task("bl-1"), None);
    assert_eq!(legacy.integration_branch_for(Some("feat"), Some("dev".into()), Ok("main".into())).unwrap(), "feat");
    assert_eq!(legacy.integration_branch_for(None, Some("dev".into()), Ok("main".into())).unwrap(), "dev");
    assert_eq!(legacy.integration_branch(None, Ok("main".into())).unwrap(), "main");
    let xdg = Store::xdg_with(
        "/r".into(), false, false, "/t".into(), "/k".into(), "balls/tasks".into(), "/c".into(), "/l".into(),
        "/p".into(), "/w".into(), "/cfg".into(), "/pc".into(),
    );
    assert_eq!(xdg.integration_branch(Some("dev".into()), Ok("main".into())).unwrap(), "main");
    assert_eq!(xdg.explicit_repo_target_branch(Some("dev".into())), None);
    assert_eq!(xdg.plugin_config_root(), "/k");
    assert_eq!(xdg.worktrees_root("ignored"), "/w");
    assert!(matches!(xdg.integration_branch(None, Err(BallError::NotARepo)), Err(BallError::NotARepo)));
}

#[test]
fn init_decisions() {
    assert!(check_tasks_dir(Some("/abs")).is_ok());
    assert!(matches!(check_tasks_dir(Some("rel")), Err(BallError::Other(m)) if m == "--tasks-dir must be an absolute path, got: rel"));
    assert_eq!(init_root(Ok("/r".into()), false, "/c".into()).unwrap(), ("/r".to_string(), false));
    assert_eq!(init_root(Err(BallError::NotARepo), true, "/c".into()).unwrap(), ("/c".to_string(), true));
    assert!(matches!(init_root(Err(BallError::NotARepo), false, "/c".into()), Err(BallError::NotARepo)));
    assert_eq!(init_message(true), "balls: reinitialize");
    assert_eq!(init_message(false), "balls: initialize");
    assert_eq!(init_paths(true).len(), 3);
    assert_eq!(bare_target("/b/.git", false, false).unwrap(), true);
    assert_eq!(bare_target("/b/.git", true, true).unwrap(), false);
    assert!(matches!(bare_target("/b/.git", true, false), Err(BallError::Other(m)) if m == "/b/.git exists and is not a bare repo; refusing to clobber it"));
    assert!(tracker_clone(&ok("")).is_ok());
    assert!(matches!(tracker_clone(&failed(" nope \n")), Err(BallError::Other(m)) if m.ends_with("(README bootstrap step 1): nope")));
}

#[test]
fn xdg_init_shapes() {
    assert!(matches!(init("/c", false, None, true).unwrap(), InitShape::WithOrigin));
    match init("/c", true, None, true).unwrap() {
        InitShape::Stealth { tasks_dir, identity } => {
            assert_eq!(tasks_dir, "/c/.balls/tasks");
            assert_eq!(identity, "/c");
        },
        _ => panic!("stealth expected"),
    }
    match init("/c", false, Some("/t".into()), true).unwrap() {
        InitShape::Stealth { tasks_dir, identity } => {
            assert_eq!(tasks_dir, "/t");
            assert_eq!(identity, "/t");
        },
        _ => panic!("stealth expected"),
    }
    assert!(matches!(init("/c", false, None, false), Err(BallError::Other(m)) if m == "HOME must be set for XDG bl init"));
    assert!(matches!(init("/c", false, Some("t".into()), false), Err(BallError::Other(m)) if m.starts_with("--tasks-dir")));
    assert!(require_origin(None).is_err());
    assert_eq!(require_origin(Some("u".into())).unwrap(), "u");
}

// ------------------------------------------------------------ substrate

#[test]
fn materialize_founds_only_a_missing_branch_and_places_the_checkout() {
    assert!(materialize("balls/tasks", false, None) == (true, Placement::Add));
    assert!(materialize("balls/tasks", true, Some("balls/tasks\n")) == (false, Placement::Keep));
    assert!(materialize("balls/tasks", true, Some("other\n")) == (false, Placement::Switch));
    assert_eq!(landing_ref(), "refs/heads/balls/config");
    assert_eq!(gitkeep_entry("e69d"), "100644 blob e69d\t.gitkeep\n");
    assert_eq!(tasks_entry("abcd"), "040000 tree abcd\ttasks\n");
}

#[test]
fn usage_is_the_block_from_the_usage_line_to_the_blank_line() {
    let doc = "# claim\n\nusage: bl claim <id>\n       [--force]  \n\nMore prose.\n";
    assert_eq!(usage(doc), "usage: bl claim <id>\n       [--force]");
    assert_eq!(usage("no usage here  "), "no usage here");
}

// ------------------------------------------------------------ target

#[test]
fn nesting_needs_the_close_gate_on_the_live_parent() {
    let parent = task(None, &[("bl-kid", Verb::Close)]);
    assert!(close_gated("bl-kid", &parent));
    assert!(!close_gated("bl-kid", &task(None, &[("bl-kid", Verb::Claim)])));
    let kid = task(Some("bl-epic"), &[]);
    assert_eq!(balls::target::derive(Some("bl-kid"), Some(&kid), Some(&parent)), Some("bl-epic".to_string()));
    assert_eq!(balls::target::derive(Some("bl-kid"), Some(&kid), None), None);
    assert_eq!(balls::target::derive(None, Some(&kid), Some(&parent)), None);
    assert_eq!(balls::target::derive(Some("bl-kid"), Some(&task(None, &[])), Some(&parent)), None);
}

// ------------------------------------------------------------ closing

#[test]
fn gates_block_a_close_while_open() {
    let mut parent = record("bl-p", Status::Review, 0, vec![]);
    parent.links = vec![
        Link { link_type: LinkType::Gates, target: "bl-a".into() },
        Link { link_type: LinkType::RelatesTo, target: "bl-b".into() },
        Link { link_type: LinkType::Gates, target: "bl-c".into() },
    ];
    assert_eq!(gate_targets(&parent), vec!["bl-a".to_string(), "bl-c".to_string()]);
    let loaded = vec![
        ("bl-a".to_string(), Ok(Status::Open)),
        ("bl-c".to_string(), Err(BallError::TaskNotFound("bl-c".into()))),
    ];
    let open = open_gate_blockers(&loaded).unwrap();
    assert_eq!(open, vec!["bl-a".to_string()]);
    let e = enforce_gates("bl-p", &open).unwrap_err();
    assert!(matches!(e, BallError::Other(m) if *m == format!("cannot close bl-p: blocked by open gate bl-a. Close the {}", "gate task first, or run `bl link rm bl-p gates <id>` to drop a gate.")));
    let two = vec!["bl-a".to_string(), "bl-d".to_string()];
    assert!(matches!(enforce_gates("bl-p", &two), Err(BallError::Other(m)) if m.contains("open gates bl-a, bl-d") && m.contains("gate tasks first")));
    assert!(enforce_gates("bl-p", &Vec::new()).is_ok());
    let broken = vec![("bl-x".to_string(), Err(BallError::InvalidTask("bad".into())))];
    assert!(matches!(open_gate_blockers(&broken), Err(BallError::InvalidTask(m)) if m == "bad"));
}

#[test]
fn close_message_embeds_the_closing_message() {
    assert_eq!(close_message("bl-1", "Fix", None), "state: close bl-1 - Fix");
    assert_eq!(close_message("bl-1", "Fix", Some("fine")), "state: close bl-1 - Fix\n\nfine");
}

#[test]
fn close_pushes_before_the_teardown() {
    let (mut c, a) = close_worktree("bl-1".into(), Some("ok".into()), true, false, false);
    assert!(matches!(a, CloseAction::LoadTask));
    let links = vec![
        Link { link_type: LinkType::Gates, target: "bl-g".into() },
        Link { link_type: LinkType::RelatesTo, target: "bl-r".into() },
    ];
    let a = c.step(CloseEvent::Loaded { title: "Fix".into(), branch: None, target: Some("dev".into()), links });
    assert!(matches!(a, CloseAction::LoadGates { targets } if targets == vec!["bl-g".to_string()]));
    let a = c.step(CloseEvent::GatesLoaded(vec![("bl-g".to_string(), Ok(Status::Closed))]));
    assert!(matches!(a, CloseAction::ResolveTarget { task_target: Some(t) } if t == "dev"));
    let a = c.step(CloseEvent::Text("dev".into()));
    assert!(matches!(a, CloseAction::PopulateDelivery { target } if target == "dev"));
    let a = c.step(CloseEvent::Populated(true));
    assert!(matches!(a, CloseAction::CommitDelivery { message } if message == "state: deliver bl-1"));
    let a = c.step(CloseEvent::Done);
    assert!(matches!(a, CloseAction::SnapshotState));
    let a = c.step(CloseEvent::Text("s0".into()));
    assert!(matches!(a, CloseAction::Archive { message } if message == "state: close bl-1 - Fix\n\nok"));
    let a = c.step(CloseEvent::Done);
    assert!(matches!(a, CloseAction::PushState));
    let a = c.step(CloseEvent::Done);
    assert!(matches!(a, CloseAction::RemoveWorktree));
    let a = c.step(CloseEvent::Done);
    assert!(matches!(a, CloseAction::DeleteBranch { branch } if branch == "work/bl-1"));
    let a = c.step(CloseEvent::Failed(BallError::Git("ignored".into())));
    assert!(matches!(a, CloseAction::RemoveClaim));
    let a = c.step(CloseEvent::Done);
    assert!(matches!(a, CloseAction::Finish));
}

#[test]
fn failed_push_resets_the_state_branch_and_keeps_the_worktree() {
    let (mut c, _) = close_worktree("bl-1".into(), None, true, false, false);
    c.step(CloseEvent::Loaded { title: "Fix".into(), branch: Some("work/x".into()), target: None, links: Vec::new() });
    c.step(CloseEvent::GatesLoaded(Vec::new()));
    c.step(CloseEvent::Text("main".into()));
    c.step(CloseEvent::Populated(false));
    c.step(CloseEvent::Text("s0".into()));
    assert!(matches!(c.step(CloseEvent::Done), CloseAction::PushState));
    let a = c.step(CloseEvent::Failed(BallError::Git("rejected".into())));
    assert!(matches!(a, CloseAction::ResetState { sha } if sha == "s0"));
    let a = c.step(CloseEvent::Done);
    assert!(matches!(a, CloseAction::Fail(BallError::Git(m)) if m == "rejected"));
}

#[test]
fn closing_from_inside_the_worktree_is_refused() {
    let (_, a) = close_worktree("bl-1".into(), None, false, false, true);
    assert!(matches!(a, CloseAction::Fail(BallError::Other(m)) if m == "cannot close from within the worktree — run from the repo root"));
}

#[test]
fn deferred_review_gates_the_parent_once() {
    let mut links = vec![Link { link_type: LinkType::RelatesTo, target: "bl-z".into() }];
    gate_parent(&mut links, "bl-g");
    gate_parent(&mut links, "bl-g");
    assert_eq!(links.len(), 2);
    assert!(links[1].link_type == LinkType::Gates && links[1].target == "bl-g");
    assert_eq!(gate_title("bl-1"), "Forge: PR merged for bl-1");
}

// ------------------------------------------------------------ git outcomes

#[test]
fn option_like_refusal_quotes_the_value() {
    assert_eq!(reject_option_like("-x").unwrap_err(), "refusing git argument that looks like an option: \"-x\"");
}

#[test]
fn worktree_oid_reports_the_first_failure() {
    assert_eq!(worktree_oid(&ok(""), &ok("abc123\n")).unwrap(), "abc123");
    assert_eq!(worktree_oid(&failed("boom\n"), &ok("abc\n")).unwrap_err(), "git add -A: boom");
    assert_eq!(worktree_oid(&ok(""), &failed("bad\n")).unwrap_err(), "git write-tree: bad");
}

#[test]
fn warm_checkout_moves_only_off_branch() {
    assert!(!align_warm_branch(Some("balls/tasks"), "balls/tasks"));
    assert!(align_warm_branch(Some("main"), "balls/tasks"));
    assert!(align_warm_branch(None, "balls/tasks"));
    assert_eq!(fetch_origin(&failed("  unreachable \n")), (false, "unreachable".to_string()));
    assert_eq!(fetch_origin(&ok("whatever")), (true, String::new()));
}

#[test]
fn rebind_looks_beside_the_binary() {
    let names = vec!["bl-tracker".to_string(), "bl-delivery".to_string()];
    assert_eq!(
        rebind(Some("/opt/bin"), &names),
        vec![
            ("bl-tracker".to_string(), "/opt/bin/bl-tracker".to_string()),
            ("bl-delivery".to_string(), "/opt/bin/bl-delivery".to_string()),
        ]
    );
    assert!(rebind(None, &names).is_empty());
}

#[test]
fn unknown_status_words_are_refused() {
    assert!(matches!(Status::parse("bogus"), Err(BallError::InvalidTask(m)) if m == "unknown status: bogus"));
    assert!(Status::parse("closed").unwrap().is_closed());
}

// ------------------------------------------------------------ more decisions

#[test]
fn a_minted_token_lets_exactly_the_same_content_through() {
    let content = balls::seen::token_content("abc123");
    assert_eq!(content, "abc123\n");
    let c = vec![("/home/balls-seen/bl-1".to_string(), Some(content))];
    assert_eq!(seen_tokens("abc123", c.clone()), vec!["/home/balls-seen/bl-1".to_string()]);
    assert!(seen_tokens("def456", c).is_empty());
}

#[test]
fn a_second_materialize_does_nothing() {
    let (found, placement) = materialize("balls/tasks", true, Some("balls/tasks\n"));
    assert!(!found && placement == Placement::Keep);
}

#[test]
fn archive_plans_follow_the_mode() {
    let stealth = Store::legacy_with("/r".into(), "/tasks".into(), "/s".into(), "b".into(), true);
    match stealth.archive_plan("bl-1", Some("bl-p")) {
        balls::store_archive::ArchivePlan::Delete { task_file, notes_file } => {
            assert_eq!(task_file, "/tasks/bl-1.json");
            assert_eq!(notes_file, "/tasks/bl-1.notes.jsonl");
        },
        _ => panic!("stealth deletes"),
    }
    let shared = Store::legacy_with("/r".into(), "/tasks".into(), "/s".into(), "b".into(), false);
    match shared.archive_plan("bl-1", Some("bl-p")) {
        balls::store_archive::ArchivePlan::Commit { stage, remove } => {
            assert_eq!(stage, vec![".balls/tasks/bl-p.json".to_string(), ".balls/tasks/bl-p.notes.jsonl".to_string()]);
            assert_eq!(remove, vec![".balls/tasks/bl-1.json".to_string(), ".balls/tasks/bl-1.notes.jsonl".to_string()]);
        },
        _ => panic!("a shared store commits"),
    }
    match shared.archive_plan("bl-1", None) {
        balls::store_archive::ArchivePlan::Commit { stage, .. } => assert!(stage.is_empty()),
        _ => panic!("a shared store commits"),
    }
}

#[test]
fn task_files_are_the_json_entries() {
    assert!(is_task_file("/t/bl-1.json"));
    assert!(!is_task_file("/t/bl-1.notes.jsonl"));
    assert!(!is_task_file("/t/.json"));
    assert!(!is_task_file("/t/.gitkeep"));
    assert!(is_task_file("a.b.json"));
    assert!(!is_task_file("/"));
}

#[test]
fn stealth_override_needs_an_absolute_path() {
    assert_eq!(stealth_tasks_override(Some("  /abs/tasks\n")), Some("/abs/tasks".to_string()));
    assert_eq!(stealth_tasks_override(Some("rel/tasks")), None);
    assert_eq!(stealth_tasks_override(None), None);
}

#[test]
fn task_files_render_and_frame_back() {
    let mut t = task(None, &[]);
    t.body = "Body text\n".to_string();
    let md = t.to_markdown("title = \"T\"\n");
    assert_eq!(md, "+++\ntitle = \"T\"\n+++\nBody text\n");
    let (fm, body) = split_frontmatter(&md).ok().unwrap();
    assert_eq!(fm, "title = \"T\"");
    assert_eq!(body, "Body text\n");
}

#[test]
fn decoded_frontmatter_keeps_the_body_and_refuses_reserved_keys() {
    let ok = Task::from_frontmatter(Ok(task(None, &[])), "b".into()).ok().unwrap();
    assert_eq!(ok.body, "b");
    let mut bad = task(None, &[]);
    bad.extra = vec![("body".into(), "\"x\"".into())];
    match Task::from_frontmatter(Ok(bad), String::new()) {
        Err(e) => {
            assert!(matches!(e, ParseError::ReservedKey("body")));
            assert!(e.message().starts_with("reserved frontmatter key 'body'"));
        },
        Ok(_) => panic!("reserved key accepted"),
    }
    match Task::from_frontmatter(Err("expected `=`".into()), String::new()) {
        Err(e) => assert_eq!(e.message(), "invalid frontmatter: expected `=`"),
        Ok(_) => panic!("decode error lost"),
    }
}

#[test]
fn runtime_paths_in_a_squash_commit_are_caught() {
    let show = "src/lib.rs\n.balls/tasks/bl-1.json\n.balls/local\n.balls-worktrees/x\n.balls/config.json\n";
    assert_eq!(commit_touches_runtime(show), vec![".balls/tasks/bl-1.json".to_string(), ".balls/local".to_string()]);
    let (add, rm) = balls::review_safety::add_user_changes();
    assert_eq!(add, vec!["add", "-A"]);
    assert_eq!(&rm[..5], &["rm", "--cached", "--ignore-unmatch", "-r", "--"]);
    assert_eq!(balls::review_safety::rewind_main("main", true), ("refs/heads/main".to_string(), true));
}

#[test]
fn state_checkout_seed_and_paths() {
    assert_eq!(balls::state_repo::state_repo_rel(), ".balls/state-repo");
    assert!(balls::state_repo::needs_attrs(None));
    assert!(balls::state_repo::needs_attrs(Some("*.md text\n")));
    assert!(!balls::state_repo::needs_attrs(Some("*.notes.jsonl merge=union\n")));
    let s = Store::legacy_with("/r".into(), "/t".into(), "/r/.balls/state-repo".into(), "balls/tasks".into(), true).without_git();
    assert!(s.no_git && s.stealth);
    assert_eq!(s.state_repo_dir(), "/r/.balls/state-repo");
    assert_eq!(s.state_branch(), "balls/tasks");
    assert_eq!(s.tasks_dir(), "/t");
}

#[test]
fn deferred_review_texts() {
    assert!(gate_description("bl-1").contains("unblocks `bl close bl-1`"));
    assert_eq!(create_message("bl-2", "Forge: PR merged for bl-1"), "balls: create bl-2 - Forge: PR merged for bl-1");
    assert_eq!(review_message("bl-1"), "state: review bl-1 deferred");
    assert_eq!(pushed_notice("work/bl-1", "main"), "deferred: pushed work/bl-1 to origin (base main)");
    assert_eq!(gate_notice("bl-2", "bl-1"), "gate task: bl-2 — close it when the PR merges to unblock `bl close bl-1`");
    assert_eq!(gated_notice("bl-1", "bl-2"), "bl-1 is in review and gated by bl-2; `bl close bl-1` is blocked until the PR merges.");
    let mut t = record("bl-1", Status::InProgress, 5, Vec::new());
    assert_eq!(balls::review::review_no_git(&mut t, Some("n".into()), 9), (Some("n".to_string()), "state: review bl-1".to_string()));
    assert!(matches!(t.status, Status::Review));
    assert_eq!(t.updated_at, 9);
    assert_eq!(t.title, "T");
}

#[test]
fn the_status_ladder() {
    let resolved = |id: &str| id == "done";
    let mut t = task(None, &[("open", Verb::Claim), ("gate", Verb::Close)]);
    assert!(matches!(t.status(&resolved), balls::task::Status::Blocked));
    assert!(!t.ready(&resolved));
    assert!(!t.closeable(&resolved));
    t.blockers = vec![Blocker { id: "done".into(), on: Verb::Claim }, Blocker { id: "done".into(), on: Verb::Close }];
    assert!(matches!(t.status(&resolved), balls::task::Status::Ready));
    assert!(t.closeable(&resolved));
    t.claimant = Some("me".into());
    assert!(matches!(t.status(&resolved), balls::task::Status::Claimed));
    assert!(matches!(balls::task::Status::from_word("ready"), Some(balls::task::Status::Ready)));
    assert!(balls::task::Status::from_word("closed").is_none());
}

#[test]
fn deferred_review_pushes_gates_then_flips() {
    let (mut d, a) = deferred_review("bl-1".into(), "work/bl-1".into(), "main".into(), Some("please".into()), "Fix [bl-1]".into(), Some("hub/proj".into()));
    assert!(matches!(a, A::PushBranch { branch } if branch == "work/bl-1"));
    assert!(matches!(d.step(E::Done), A::MintChild { title } if title == "Forge: PR merged for bl-1"));
    assert!(!d.accepts(&E::Done));
    match d.step(E::Minted("bl-2".into())) {
        A::SaveChild { child } => {
            assert_eq!(child.id, "bl-2");
            assert_eq!(child.title, "Forge: PR merged for bl-1");
            assert_eq!(child.parent, "bl-1");
            assert_eq!(child.priority, 3);
            assert_eq!(child.task_type, "task");
            assert_eq!(child.tags, vec!["forge-gate".to_string()]);
            assert!(child.depends_on.is_empty());
            assert!(matches!(child.status, Status::Open));
            assert!(child.claimed_by.is_none());
            assert_eq!(child.repo.as_deref(), Some("hub/proj"));
        },
        _ => panic!("expected a SaveChild action"),
    }
    assert!(matches!(d.step(E::Done), A::Commit { id, message } if id == "bl-2" && message == "balls: create bl-2 - Forge: PR merged for bl-1"));
    assert!(matches!(d.step(E::Done), A::GateAndFlip { child } if child == "bl-2"));
    assert!(matches!(d.step(E::Done), A::AppendNote { text } if text == "please"));
    assert!(matches!(d.step(E::Done), A::Commit { id, message } if id == "bl-1" && message == "state: review bl-1 deferred"));
    match d.step(E::Done) {
        A::Notify { out, err } => {
            assert_eq!(out[0], "deferred: pushed work/bl-1 to origin (base main)");
            assert_eq!(out[1], "PR title: Fix [bl-1]");
            assert!(out[2].starts_with("gate task: bl-2"));
            assert!(err.starts_with("bl-1 is in review and gated by bl-2"));
        },
        _ => panic!("expected the notice"),
    }
    assert!(matches!(d.step(E::Done), A::Finish));
    assert!(!d.accepts(&E::Done));
}

#[test]
fn a_failed_push_ends_the_deferred_review() {
    let (mut d, _) = deferred_review("bl-1".into(), "work/bl-1".into(), "main".into(), None, "t".into(), None);
    assert!(matches!(d.step(E::Failed(BallError::Git("rejected".into()))), A::Fail(BallError::Git(m)) if m == "rejected"));
}

#[test]
fn archiving_a_child_records_it_on_the_parent() {
    let mut parent = record("bl-p", Status::Open, 5, Vec::new());
    let mut child = record("bl-c", Status::Closed, 7, Vec::new());
    child.title = "Child".to_string();
    child.closed_at = Some(9);
    balls::store_archive::archive_child_into(&mut parent, &child, 20);
    assert_eq!(parent.closed_children.len(), 1);
    assert_eq!(parent.closed_children[0].id, "bl-c");
    assert_eq!(parent.closed_children[0].title, "Child");
    assert_eq!(parent.closed_children[0].closed_at, 9);
    assert_eq!(parent.updated_at, 20);
    child.closed_at = None;
    balls::store_archive::archive_child_into(&mut parent, &child, 30);
    assert_eq!(parent.closed_children.len(), 2);
    assert_eq!(parent.closed_children[1].closed_at, 30);
    assert!(matches!(parent.status, Status::Open));
}

#[test]
fn a_given_tasks_dir_implies_stealth_and_the_branch_falls_back() {
    assert!(init_uses_stealth(false, true));
    assert!(init_uses_stealth(true, false));
    assert!(!init_uses_stealth(false, false));
    assert_eq!(init_state_branch(false, Ok("trunk".into()), "balls/tasks".into()), "trunk");
    assert_eq!(init_state_branch(false, Err(BallError::NotARepo), "balls/tasks".into()), "balls/tasks");
    assert_eq!(init_state_branch(true, Ok("trunk".into()), "balls/tasks".into()), "balls/tasks");
}

#[test]
fn a_task_path_is_joined_only_for_a_valid_id() {
    let s = Store::legacy_with("/r".into(), "/r/tasks".into(), "/r/.balls/state-repo".into(), "b".into(), true);
    assert_eq!(s.task_path("bl-1", Ok(())).unwrap(), "/r/tasks/bl-1.json");
    assert!(matches!(s.task_path("../x", Err(BallError::InvalidTask("bad id".into()))), Err(BallError::InvalidTask(m)) if m == "bad id"));
}

#[test]
fn an_open_gate_refuses_the_close() {
    let (mut c, _) = close_worktree("bl-p".into(), None, false, false, false);
    let links = vec![Link { link_type: LinkType::Gates, target: "bl-a".into() }];
    c.step(CloseEvent::Loaded { title: "P".into(), branch: None, target: None, links });
    let a = c.step(CloseEvent::GatesLoaded(vec![("bl-a".to_string(), Ok(Status::Open))]));
    assert!(matches!(a, CloseAction::Fail(BallError::Other(m)) if m.starts_with("cannot close bl-p: blocked by open gate bl-a.")));
    assert!(!c.accepts(&CloseEvent::Done));
}

#[test]
fn the_tasks_symlink_is_kept_replaced_created_or_refused() {
    assert!(matches!(tasks_symlink_step("/r", true, true, Some("/s/.balls/tasks".into()), "/s/.balls/tasks"), Ok(SymlinkStep::Keep)));
    assert!(matches!(tasks_symlink_step("/r", true, true, Some("/s/.balls/tasks/".into()), "/s/.balls/tasks"), Ok(SymlinkStep::Keep)));
    assert!(matches!(tasks_symlink_step("/r", true, true, Some("/s//.balls/./tasks".into()), "/s/.balls/tasks"), Ok(SymlinkStep::Keep)));
    assert!(matches!(tasks_symlink_step("/r", true, true, Some("s/.balls/tasks".into()), "/s/.balls/tasks"), Ok(SymlinkStep::Replace)));
    assert!(matches!(tasks_symlink_step("/r", true, true, Some("./x".into()), "x"), Ok(SymlinkStep::Replace)));
    assert!(matches!(tasks_symlink_step("/r", true, true, Some("/old".into()), "/s/.balls/tasks"), Ok(SymlinkStep::Replace)));
    assert!(matches!(tasks_symlink_step("/r", true, false, None, "/s/.balls/tasks"), Ok(SymlinkStep::Replace)));
    assert!(matches!(tasks_symlink_step("/r", false, false, None, "/s/.balls/tasks"), Ok(SymlinkStep::Create)));
    assert!(matches!(tasks_symlink_step("/r", false, true, None, "/s"), Err(BallError::Other(m)) if m == "unexpected non-symlink at /r/.balls/tasks; remove it and re-run `bl init`"));
}

#[test]
fn same_path_agrees_with_std_path_equality() {
    let paths = ["", ".", "./", "./x", "x", "x/", "x//y", "x/./y", "x/y/.", "/", "/.", "//", "/x", "/x/", "../x", "x/..", ".x", "x/.y", "./.", "a/b/c"];
    for a in paths {
        for b in paths {
            assert_eq!(
                balls::path::same_path(a, b),
                std::path::Path::new(a) == std::path::Path::new(b),
                "{a:?} vs {b:?}"
            );
        }
    }
}
