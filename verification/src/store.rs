//! The resolved store: which on-disk layout a clone uses and where each of
//! its per-clone paths lives.
//!
//! Discovery (reading the disk and git) is the caller's; the store holds the
//! resolved paths as plain strings, and its accessors return them so callers
//! stay layout-agnostic. The few layout-specific decisions — where plugin
//! config files are rooted, where worktrees go, which branch a task integrates
//! into — are made here.

use vstd::prelude::*;
use crate::error::BallError;
use crate::path::{join, spec_join};
use crate::store_archive::{views, ArchivePlan};
use crate::text::{concat, owned};

verus! {

/// Which on-disk layout the store operates against.
#[derive(Clone, Copy, Debug, PartialEq, Eq, Structural)]
pub enum Layout {
    /// The nested XDG layout: trackers, worktrees, claims, locks under the
    /// user's state directory.
    Xdg,
    /// The in-repo layout: `.balls/` colocated with the clone,
    /// `.balls/state-repo/` as the runtime checkout, `.balls-worktrees/` in
    /// tree.
    Legacy,
}

/// A resolved store.
pub struct Store {
    pub root: String,
    pub stealth: bool,
    /// True when no git repository is available. Implies stealth.
    pub no_git: bool,
    pub layout: Layout,
    tasks_dir_path: String,
    state_repo_path: String,
    state_branch_name: String,
    claims_dir_path: String,
    lock_dir_path: String,
    local_plugins_dir_path: String,
    worktrees_root_path: String,
    config_file_path: String,
    project_config_file_path: String,
}

/// A store as plain values.
pub struct StoreV {
    pub root: Seq<char>,
    pub stealth: bool,
    pub no_git: bool,
    pub layout: Layout,
    pub tasks_dir: Seq<char>,
    pub state_repo: Seq<char>,
    pub state_branch: Seq<char>,
    pub claims_dir: Seq<char>,
    pub lock_dir: Seq<char>,
    pub local_plugins_dir: Seq<char>,
    pub worktrees_root: Seq<char>,
    pub config_file: Seq<char>,
    pub project_config_file: Seq<char>,
}

impl View for Store {
    type V = StoreV;

    closed spec fn view(&self) -> StoreV {
        StoreV {
            root: self.root@,
            stealth: self.stealth,
            no_git: self.no_git,
            layout: self.layout,
            tasks_dir: self.tasks_dir_path@,
            state_repo: self.state_repo_path@,
            state_branch: self.state_branch_name@,
            claims_dir: self.claims_dir_path@,
            lock_dir: self.lock_dir_path@,
            local_plugins_dir: self.local_plugins_dir_path@,
            worktrees_root: self.worktrees_root_path@,
            config_file: self.config_file_path@,
            project_config_file: self.project_config_file_path@,
        }
    }
}

/// The in-repo layout's path bundle for a clone at `root`.
pub open spec fn legacy_view(
    root: Seq<char>,
    tasks_dir: Seq<char>,
    state_repo: Seq<char>,
    state_branch: Seq<char>,
    stealth: bool,
) -> StoreV {
    let local = spec_join(root, ".balls/local"@);
    let balls = spec_join(root, ".balls"@);
    StoreV {
        root,
        stealth,
        no_git: false,
        layout: Layout::Legacy,
        tasks_dir,
        state_repo,
        state_branch,
        claims_dir: spec_join(local, "claims"@),
        lock_dir: spec_join(local, "lock"@),
        local_plugins_dir: spec_join(local, "plugins"@),
        worktrees_root: spec_join(root, ".balls-worktrees"@),
        config_file: spec_join(balls, "config.json"@),
        project_config_file: spec_join(balls, "project.json"@),
    }
}

/// `.balls/tasks/<id>.json`, relative to the state checkout.
pub open spec fn spec_task_json(id: Seq<char>) -> Seq<char> {
    ".balls/tasks/"@ + id + ".json"@
}

/// `.balls/tasks/<id>.notes.jsonl`, relative to the state checkout.
pub open spec fn spec_task_notes(id: Seq<char>) -> Seq<char> {
    ".balls/tasks/"@ + id + ".notes.jsonl"@
}

/// A task file's path relative to the state checkout.
pub fn task_json(id: &str) -> (r: String)
    ensures
        r@ == spec_task_json(id@),
{
    let mut r = concat(".balls/tasks/", id);
    r.append(".json");
    r
}

/// A task's notes sidecar path relative to the state checkout.
pub fn task_notes(id: &str) -> (r: String)
    ensures
        r@ == spec_task_notes(id@),
{
    let mut r = concat(".balls/tasks/", id);
    r.append(".notes.jsonl");
    r
}

/// Root that a plugin's `config_file` path is joined against, for an in-repo
/// clone: the state checkout only for a federated repo (a master URL is set)
/// whose `.balls/plugins/` is not yet a symlink; the project root otherwise,
/// where the symlink does the redirect.
pub open spec fn spec_plugin_config_root(
    root: Seq<char>,
    state_worktree: Seq<char>,
    plugins_symlinked: bool,
    has_master: bool,
) -> Seq<char> {
    if has_master && !plugins_symlinked {
        state_worktree
    } else {
        root
    }
}

/// Plugin config root for an in-repo clone; see [`spec_plugin_config_root`].
pub fn plugin_config_root(
    root: &str,
    state_worktree: &str,
    plugins_symlinked: bool,
    has_master: bool,
) -> (r: String)
    ensures
        r@ == spec_plugin_config_root(root@, state_worktree@, plugins_symlinked, has_master),
{
    if has_master && !plugins_symlinked {
        owned(state_worktree)
    } else {
        owned(root)
    }
}

impl Store {
    /// A store on the in-repo layout: `claims`, `lock` and `plugins` under
    /// `<root>/.balls/local`, the config files under `<root>/.balls`,
    /// worktrees under `<root>/.balls-worktrees`.
    pub fn legacy_with(
        root: String,
        tasks_dir_path: String,
        state_repo_path: String,
        state_branch_name: String,
        stealth: bool,
    ) -> (s: Store)
        ensures
            s@ == legacy_view(root@, tasks_dir_path@, state_repo_path@, state_branch_name@, stealth),
    {
        let local = join(root.as_str(), ".balls/local");
        let balls = join(root.as_str(), ".balls");
        Store {
            claims_dir_path: join(local.as_str(), "claims"),
            lock_dir_path: join(local.as_str(), "lock"),
            local_plugins_dir_path: join(local.as_str(), "plugins"),
            worktrees_root_path: join(root.as_str(), ".balls-worktrees"),
            config_file_path: join(balls.as_str(), "config.json"),
            project_config_file_path: join(balls.as_str(), "project.json"),
            root,
            stealth,
            no_git: false,
            layout: Layout::Legacy,
            tasks_dir_path,
            state_repo_path,
            state_branch_name,
        }
    }

    /// A store on the XDG layout, with every per-clone path already resolved
    /// against the user's XDG bases.
    pub fn xdg_with(
        root: String,
        stealth: bool,
        no_git: bool,
        tasks_dir_path: String,
        state_repo_path: String,
        state_branch_name: String,
        claims_dir_path: String,
        lock_dir_path: String,
        local_plugins_dir_path: String,
        worktrees_root_path: String,
        config_file_path: String,
        project_config_file_path: String,
    ) -> (s: Store)
        ensures
            s@ == (StoreV {
                root: root@,
                stealth,
                no_git,
                layout: Layout::Xdg,
                tasks_dir: tasks_dir_path@,
                state_repo: state_repo_path@,
                state_branch: state_branch_name@,
                claims_dir: claims_dir_path@,
                lock_dir: lock_dir_path@,
                local_plugins_dir: local_plugins_dir_path@,
                worktrees_root: worktrees_root_path@,
                config_file: config_file_path@,
                project_config_file: project_config_file_path@,
            }),
    {
        Store {
            root,
            stealth,
            no_git,
            layout: Layout::Xdg,
            tasks_dir_path,
            state_repo_path,
            state_branch_name,
            claims_dir_path,
            lock_dir_path,
            local_plugins_dir_path,
            worktrees_root_path,
            config_file_path,
            project_config_file_path,
        }
    }

    /// The same store, marked as having no git repository (which implies
    /// stealth, as the caller has established).
    pub fn without_git(self) -> (s: Store)
        ensures
            s@ == (StoreV { no_git: true, ..self@ }),
    {
        let mut s = self;
        s.no_git = true;
        s
    }

    pub fn tasks_dir(&self) -> (r: String)
        ensures
            r@ == self@.tasks_dir,
    {
        self.tasks_dir_path.clone()
    }

    /// The file of task `id`: `<tasks_dir>/<id>.json`, once the id has been
    /// validated; `valid_id` is that validation's outcome, and its error is
    /// the result's.
    pub fn task_path(&self, id: &str, valid_id: Result<(), BallError>) -> (r: Result<String, BallError>)
        ensures
            match valid_id {
                Ok(_) => r matches Ok(p) && p@ == spec_join(self@.tasks_dir, id@ + ".json"@),
                Err(e) => r == Err::<String, BallError>(e),
            },
    {
        match valid_id {
            Ok(_) => {
                let f = concat(id, ".json");
                Ok(join(self.tasks_dir_path.as_str(), f.as_str()))
            },
            Err(e) => Err(e),
        }
    }

    /// Where state-branch git operations run.
    pub fn state_repo_dir(&self) -> (r: String)
        ensures
            r@ == self@.state_repo,
    {
        self.state_repo_path.clone()
    }

    /// The tracker's state branch, cached at discovery.
    pub fn state_branch(&self) -> (r: String)
        ensures
            r@ == self@.state_branch,
    {
        self.state_branch_name.clone()
    }

    pub fn claims_dir(&self) -> (r: String)
        ensures
            r@ == self@.claims_dir,
    {
        self.claims_dir_path.clone()
    }

    pub fn lock_dir(&self) -> (r: String)
        ensures
            r@ == self@.lock_dir,
    {
        self.lock_dir_path.clone()
    }

    pub fn local_plugins_dir(&self) -> (r: String)
        ensures
            r@ == self@.local_plugins_dir,
    {
        self.local_plugins_dir_path.clone()
    }

    pub fn config_path(&self) -> (r: String)
        ensures
            r@ == self@.config_file,
    {
        self.config_file_path.clone()
    }

    pub fn project_config_path(&self) -> (r: String)
        ensures
            r@ == self@.project_config_file,
    {
        self.project_config_file_path.clone()
    }

    /// Root that a plugin's `config_file` path is joined against: the clone
    /// root on the in-repo layout, the tracker checkout on the XDG layout
    /// (no `.balls/` lives at an XDG clone's root).
    pub fn plugin_config_root(&self) -> (r: String)
        ensures
            r@ == match self@.layout {
                Layout::Legacy => self@.root,
                Layout::Xdg => self@.state_repo,
            },
    {
        match self.layout {
            Layout::Legacy => self.root.clone(),
            Layout::Xdg => self.state_repo_path.clone(),
        }
    }

    /// Where task worktrees live. On the XDG layout the path resolved at
    /// discovery (it cannot be overridden); on the in-repo layout the clone
    /// root joined with the configured `worktree_dir`, which the caller read
    /// from `.balls/config.json`.
    pub fn worktrees_root(&self, worktree_dir: &str) -> (r: String)
        ensures
            r@ == match self@.layout {
                Layout::Xdg => self@.worktrees_root,
                Layout::Legacy => spec_join(self@.root, worktree_dir@),
            },
    {
        match self.layout {
            Layout::Xdg => self.worktrees_root_path.clone(),
            Layout::Legacy => join(self.root.as_str(), worktree_dir),
        }
    }

    /// The explicit repo-level `target_branch` override: never on the XDG
    /// layout (the field does not exist there); on the in-repo layout the
    /// configured value, which the caller read from `.balls/config.json`.
    pub fn explicit_repo_target_branch(&self, configured: Option<String>) -> (r: Option<String>)
        ensures
            r == match self@.layout {
                Layout::Xdg => None,
                Layout::Legacy => configured,
            },
    {
        match self.layout {
            Layout::Xdg => None,
            Layout::Legacy => configured,
        }
    }

    /// The integration branch for a task with the given optional per-task
    /// target: `task_target ?? repo-level target (in-repo layout only) ??
    /// the branch checked out at the root`. `head` is what reading the
    /// checked-out branch gave; it is consulted only when nothing before it
    /// decides.
    pub fn integration_branch_for(
        &self,
        task_target: Option<&str>,
        configured: Option<String>,
        head: Result<String, BallError>,
    ) -> (r: Result<String, BallError>)
        ensures
            task_target matches Some(t) ==> (r matches Ok(b) && b@ == t@),
            task_target is None && self@.layout == Layout::Legacy && configured is Some ==> r
                == Ok::<String, BallError>(configured->0),
            task_target is None && (self@.layout == Layout::Xdg || configured is None) ==> r == head,
    {
        match task_target {
            Some(t) => Ok(owned(t)),
            None => match self.explicit_repo_target_branch(configured) {
                Some(b) => Ok(b),
                None => head,
            },
        }
    }

    /// What committing task `id` on the state branch stages: nothing in
    /// stealth mode, where the commit is skipped; otherwise the task file
    /// and its notes sidecar (always present after a save), relative to the
    /// state checkout.
    pub fn commit_task(&self, id: &str) -> (r: Option<(String, String)>)
        ensures
            self@.stealth <==> r is None,
            r matches Some((j, n)) ==> j@ == spec_task_json(id@) && n@ == spec_task_notes(id@),
    {
        if self.stealth {
            None
        } else {
            Some((task_json(id), task_notes(id)))
        }
    }

    /// The repo-level integration branch, with no per-task override.
    pub fn integration_branch(
        &self,
        configured: Option<String>,
        head: Result<String, BallError>,
    ) -> (r: Result<String, BallError>)
        ensures
            self@.layout == Layout::Legacy && configured is Some ==> r == Ok::<String, BallError>(
                configured->0,
            ),
            (self@.layout == Layout::Xdg || configured is None) ==> r == head,
    {
        self.integration_branch_for(None, configured, head)
    }
}

impl Store {
    /// The archive of task `id`. `resaved_parent` is the parent whose record
    /// was re-saved with the child's archive entry (an already archived
    /// parent leaves no file to stage, so it is not named).
    pub fn archive_plan(&self, id: &str, resaved_parent: Option<&str>) -> (r: ArchivePlan)
        ensures
            self@.stealth ==> (r matches ArchivePlan::Delete { task_file, notes_file } && task_file@ == spec_join(
                self@.tasks_dir,
                id@ + ".json"@,
            ) && notes_file@ == spec_join(self@.tasks_dir, id@ + ".notes.jsonl"@)),
            !self@.stealth ==> (r matches ArchivePlan::Commit { stage, remove } && views(remove@) == seq![
                spec_task_json(id@),
                spec_task_notes(id@),
            ] && views(stage@) == match resaved_parent {
                Some(p) => seq![spec_task_json(p@), spec_task_notes(p@)],
                None => Seq::<Seq<char>>::empty(),
            }),
    {
        if self.stealth {
            let dir = self.tasks_dir();
            let mut f = owned(id);
            f.append(".json");
            let mut n = owned(id);
            n.append(".notes.jsonl");
            ArchivePlan::Delete { task_file: join(dir.as_str(), f.as_str()), notes_file: join(dir.as_str(), n.as_str()) }
        } else {
            let mut stage: Vec<String> = Vec::new();
            match resaved_parent {
                Some(p) => {
                    stage.push(task_json(p));
                    stage.push(task_notes(p));
                },
                None => {},
            }
            let mut remove: Vec<String> = Vec::new();
            remove.push(task_json(id));
            remove.push(task_notes(id));
            proof {
                assert(views(remove@) =~= seq![spec_task_json(id@), spec_task_notes(id@)]);
                match resaved_parent {
                    Some(p) => assert(views(stage@) =~= seq![spec_task_json(p@), spec_task_notes(p@)]),
                    None => assert(views(stage@) =~= Seq::<Seq<char>>::empty()),
                }
            }
            ArchivePlan::Commit { stage, remove }
        }
    }
}


} // verus!
