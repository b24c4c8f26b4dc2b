//! The decision logic of `bl`, a git-backed task tracker: each choice the
//! tracker makes on paths, git output, task records and task files, with its
//! contract.

use vstd::prelude::*;

pub mod error;
pub mod gitout;
pub mod path;
pub mod repo_url;
pub mod resolve;
pub mod review;
pub mod review_close;
pub mod review_deferred;
pub mod review_safety;
pub mod runtime_paths;
pub mod safegit;
pub mod sanitize;
pub mod seed;
pub mod seen;
pub mod skill;
pub mod speculate;
pub mod speculate_candidate;
pub mod speculate_queue;
pub mod speculate_run;
pub mod state_repo;
pub mod status;
pub mod store;
pub mod store_archive;
pub mod store_init;
pub mod store_init_xdg;
pub mod store_paths;
pub mod substrate;
pub mod sync_resolve;
pub mod target;
pub mod task;
pub mod task_id;
pub mod task_io;
pub mod text;

verus! {

} // verus!
