use balls::error::BallError;
use balls::gitout::GitOutput;
use balls::repo_url::identity_from;
use balls::review_safety::runtime_in_squash_error;
use balls::runtime_paths::{backstop_paths, gitignore_paths};
use balls::safegit::reject_option_like;
use balls::sanitize::{block, MARK};
use balls::speculate::verdict_path;
use balls::speculate_candidate::merge_tree;
use balls::speculate_queue::{enqueue, queue, work_tip};
use balls::state_repo::looks_like_url;
use balls::store::plugin_config_root;
use balls::store_paths::dirs_base_for;

fn marks(n: usize) -> String {
    std::iter::repeat_n(MARK, n).collect()
}

fn failed(stderr: &str) -> GitOutput {
    GitOutput { success: false, code: Some(128), stdout: String::new(), stderr: stderr.to_string() }
}

#[test]
fn identity_prefers_url() {
    let got = identity_from(Some("git@h:proj.git".into()), "/x/y");
    assert_eq!(got, "git@h:proj.git");
}

#[test]
fn identity_falls_back_to_basename() {
    assert_eq!(identity_from(None, "/x/myrepo"), "myrepo");
}

#[test]
fn identity_falls_back_to_path_when_no_basename() {
    assert_eq!(identity_from(None, "/"), "/");
}

#[test]
fn runtime_in_squash_error_pluralizes_correctly() {
    let one = runtime_in_squash_error("bl-aaaa", &[".balls/local".into()]);
    assert!(matches!(&one, BallError::Other(s) if s.contains("path .balls/local")), "{one:?}");
    let many = runtime_in_squash_error("bl-bbbb", &[".balls/local".into(), ".balls/tasks".into()]);
    assert!(
        matches!(&many, BallError::Other(s) if s.contains("paths .balls/local, .balls/tasks")),
        "{many:?}"
    );
}

#[test]
fn runtime_in_squash_error_lists_backstop_subpaths() {
    let err = runtime_in_squash_error("bl-cccc", &[".balls/state-repo".into()]);
    for p in backstop_paths() {
        let sub = p.strip_prefix(".balls/").unwrap_or(p);
        assert!(
            matches!(&err, BallError::Other(s) if s.contains(&format!("`{sub}`"))),
            "missing `{sub}` in {err:?}",
        );
    }
}

#[test]
fn backstop_paths_are_the_state_checkout_paths() {
    assert_eq!(
        backstop_paths(),
        vec![
            ".balls/local",
            ".balls/tasks",
            ".balls/project.json",
            ".balls/state-repo",
            ".balls/plugins",
            ".balls/code-refs",
        ],
    );
}

#[test]
fn gitignore_paths_non_stealth_lists_every_runtime_path() {
    assert_eq!(
        gitignore_paths(false),
        vec![
            ".balls/local",
            ".balls/tasks",
            ".balls/project.json",
            ".balls/state-repo",
            ".balls/plugins",
            ".balls/code-refs",
            ".balls-worktrees",
        ],
    );
}

#[test]
fn gitignore_paths_stealth_drops_the_state_checkout() {
    assert_eq!(gitignore_paths(true), vec![".balls/local", ".balls/code-refs", ".balls-worktrees"]);
}

#[test]
fn config_json_is_never_a_runtime_path() {
    assert!(!gitignore_paths(false).contains(&".balls/config.json"));
    assert!(!backstop_paths().contains(&".balls/config.json"));
}

#[test]
fn balls_worktrees_is_gitignored_but_not_a_backstop_path() {
    assert!(gitignore_paths(false).contains(&".balls-worktrees"));
    assert!(!backstop_paths().contains(&".balls-worktrees"));
}

#[test]
fn plugins_is_gitignored_and_a_backstop_path() {
    assert!(gitignore_paths(false).contains(&".balls/plugins"));
    assert!(backstop_paths().contains(&".balls/plugins"));
}

#[test]
fn reject_option_like_blocks_dash_values_only() {
    assert!(reject_option_like("--upload-pack=evil").is_err());
    assert!(reject_option_like("-x").is_err());
    assert!(reject_option_like("origin").is_ok());
    assert!(reject_option_like("git@github.com:o/r.git").is_ok());
    assert!(reject_option_like("balls/tasks").is_ok());
}

#[test]
fn clean_text_passes_through_unchanged() {
    assert_eq!(balls::sanitize::inline(""), "");
    assert_eq!(balls::sanitize::inline("Fix the auth timeout"), "Fix the auth timeout");
    assert_eq!(block(""), "");
    assert_eq!(block("a normal description"), "a normal description");
}

#[test]
fn legitimate_unicode_is_preserved() {
    let s = "café — 日本語 — ✅ rocket 🚀";
    assert_eq!(balls::sanitize::inline(s), s);
    assert_eq!(block(s), s);
}

#[test]
fn bare_esc_is_neutralized_in_both() {
    assert_eq!(balls::sanitize::inline("a\x1bb"), format!("a{MARK}b"));
    assert_eq!(block("a\x1bb"), format!("a{MARK}b"));
}

#[test]
fn csi_color_and_cursor_sequences_are_defanged() {
    assert_eq!(balls::sanitize::inline("\x1b[31mRED\x1b[0m"), format!("{MARK}[31mRED{MARK}[0m"));
    assert_eq!(balls::sanitize::inline("\x1b[2J\x1b[H"), format!("{MARK}[2J{MARK}[H"));
}

#[test]
fn osc_title_hyperlink_and_clipboard_payloads_are_neutralized() {
    assert_eq!(balls::sanitize::inline("\x1b]0;pwned\x07"), format!("{MARK}]0;pwned{MARK}"));
    let link = "\x1b]8;;http://evil\x07click\x1b]8;;\x07";
    assert_eq!(balls::sanitize::inline(link), format!("{MARK}]8;;http://evil{MARK}click{MARK}]8;;{MARK}"));
    assert_eq!(balls::sanitize::inline("\x1b]52;c;cm0gLXJm\x07"), format!("{MARK}]52;c;cm0gLXJm{MARK}"));
}

#[test]
fn cr_bs_del_and_c1_csi_are_neutralized() {
    assert_eq!(balls::sanitize::inline("safe\rEVIL"), format!("safe{MARK}EVIL"));
    assert_eq!(balls::sanitize::inline("a\x08b"), format!("a{MARK}b"));
    assert_eq!(balls::sanitize::inline("a\x7fb"), format!("a{MARK}b"));
    assert_eq!(balls::sanitize::inline("a\u{9b}31mb"), format!("a{MARK}31mb"));
    assert_eq!(balls::sanitize::inline("a\u{85}\u{9f}b"), format!("a{}b", marks(2)));
}

#[test]
fn inline_neutralizes_tab_and_newline() {
    assert_eq!(balls::sanitize::inline("a\tb\nc"), format!("a{MARK}b{MARK}c"));
}

#[test]
fn block_preserves_newline_and_tab_only() {
    assert_eq!(block("para\n\n\tindented"), "para\n\n\tindented");
    assert_eq!(block("a\nb\tc\x1bd\re\x01f"), format!("a\nb\tc{MARK}d{MARK}e{MARK}f"));
}

#[test]
fn boundary_code_points_classify_correctly() {
    assert_eq!(balls::sanitize::inline("\u{1f}\u{20}\u{7e}\u{7f}\u{9f}\u{a0}"), format!("{MARK} ~{MARK}{MARK}\u{a0}"));
    assert_eq!(balls::sanitize::inline("x\u{0}y"), format!("x{MARK}y"));
    assert_eq!(block("\u{a0}"), "\u{a0}");
}

#[test]
fn replacement_is_strictly_one_to_one() {
    let payload = "\x1b]0;t\x07\r\n\t\x7f\u{9b}";
    assert_eq!(balls::sanitize::inline(payload).chars().count(), payload.chars().count());
}

#[test]
fn merge_tree_speaks_gits_voice_on_a_broken_ref() {
    let out = failed("fatal: refs/heads/work/ghost - not something we can merge\n");
    let err = merge_tree(&out).unwrap_err();
    assert!(err.contains("git merge-tree"), "names the act: {err}");
}

#[test]
fn enqueue_without_a_work_branch_is_refused() {
    let out = failed("fatal: Needed a single revision\n");
    let err = enqueue(&out).unwrap_err();
    assert!(err.contains("rev-parse"), "names the failing act: {err}");
}

#[test]
fn empty_queue_reads_empty_and_unparseable_lines_are_loud() {
    assert!(queue("").unwrap().is_empty());
    assert!(work_tip("nospace").is_err());
}

#[test]
fn verdict_path_is_the_key() {
    let p = verdict_path("/t", "abc", "def");
    assert_eq!(p, "/t/verdicts/abc-def.toml");
}

#[test]
fn looks_like_url_recognizes_common_forms() {
    assert!(looks_like_url("https://example.com/x.git"));
    assert!(looks_like_url("ssh://git@host/path"));
    assert!(looks_like_url("git@github.com:org/repo.git"));
    assert!(looks_like_url("/abs/path/hub.git"));
    assert!(looks_like_url("./relative/hub"));
    assert!(looks_like_url("../sibling/hub"));
}

#[test]
fn looks_like_url_rejects_bare_remote_names() {
    assert!(!looks_like_url("origin"));
    assert!(!looks_like_url("hub"));
    assert!(!looks_like_url("anything:1234"));
}

#[test]
fn dirs_base_for_falls_back_to_tmp_without_home() {
    assert!(dirs_base_for(None, "abcdef123456789").starts_with("/tmp/balls-stealth-"));
}

#[test]
fn dirs_base_for_uses_xdg_data_dir_under_home() {
    assert_eq!(dirs_base_for(Some("/home/u"), "abcdef123456789"), "/home/u/.local/share/balls/abcdef123456");
}

#[test]
fn plugin_config_root_chooses_state_under_master_url() {
    let has_master = Some("file:///hub").is_some();
    assert_eq!(plugin_config_root("/p", "/s", false, has_master), "/s");
}

#[test]
fn plugin_config_root_chooses_project_otherwise() {
    assert_eq!(plugin_config_root("/p", "/s", false, false), "/p");
}
