# balls

The decision logic of `bl`, a git-backed task tracker, written in Verus and
proved against its contracts.

- `src/` is the verified library. Paths, git output, task records and task
  files are plain values; every choice the tracker makes on them — how a
  conflicted task record merges, how a task file is framed and laid out, which
  runtime paths a delivery may never carry, how the merge queue's speculation
  pass walks, what submitting for review and closing do step by step, and where
  a store keeps its files — is a function with a contract. The multi-step
  operations (`review_worktree`, `close_worktree`, `deferred_review`,
  `speculate_run::run`) are
  state machines: the caller performs each action and hands back what it
  observed, and the machine decides the next step. Public proof functions state
  the properties that hold across calls (the state invariants, rollback on a
  failed push, the round trip of a rendered task file, the layout of a stored
  record).
- `app/` is the I/O around it: running git, reading and writing files, file
  locks, and the serde and TOML forms of the library's records. It drives the
  speculation pass (`app/speculate.rs`); the review, close and deferred-review
  machines, init, archiving and seeding have no driver there, since the
  tracker's config, worktree and delivery plumbing they would run on is not
  part of this project.
- `tests/` exercises the library from outside.
