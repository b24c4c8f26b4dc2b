//! Archiving a closed task on the state branch: which files the archive
//! removes and which it stages, what the parent of the archived task
//! records of it, and which directory entries are task files.
//! Running git and touching the files is the caller's.

use vstd::prelude::*;
use crate::path::{file_name, spec_file_name};
use crate::resolve::{ArchivedChild, TaskRecord};
use crate::text::{chars_of, seq_eq, skip_chars};

verus! {

/// What archiving a closed task does.
pub enum ArchivePlan {
    /// Stealth mode: delete the task file and its notes sidecar (absolute
    /// paths), no commit.
    Delete { task_file: String, notes_file: String },
    /// Otherwise, in the state checkout (paths relative to it): stage
    /// `stage` (the re-saved parent's files, when the parent was re-saved),
    /// then `git rm --force` `remove` (the task's files), then commit.
    Commit { stage: Vec<String>, remove: Vec<String> },
}

/// The entry a parent keeps of its archived `child`: the child's id, title
/// and closing instant, or `now` when the child records none.
pub open spec fn archived_entry(child: TaskRecord, now: i64) -> ArchivedChild {
    ArchivedChild {
        id: child.id,
        title: child.title,
        closed_at: match child.closed_at {
            Some(t) => t,
            None => now,
        },
    }
}

/// Record the archived `child` on its `parent` and touch the parent at
/// `now`: one entry for the child is added at the end of the parent's closed
/// children, the parent's update instant becomes `now`, and nothing else of
/// the parent changes.
pub fn archive_child_into(parent: &mut TaskRecord, child: &TaskRecord, now: i64)
    ensures
        final(parent).closed_children@ == old(parent).closed_children@.push(archived_entry(*child, now)),
        *final(parent) == (TaskRecord {
            closed_children: final(parent).closed_children,
            updated_at: now,
            ..*old(parent)
        }),
{
    let closed_at = match child.closed_at {
        Some(t) => t,
        None => now,
    };
    parent.closed_children.push(ArchivedChild { id: child.id.clone(), title: child.title.clone(), closed_at });
    parent.updated_at = now;
}

pub open spec fn views(v: Seq<String>) -> Seq<Seq<char>> {
    v.map_values(|s: String| s@)
}

/// `Path::extension` of a file name: the text after its last `.`, unless
/// that dot opens the name (a dotfile has no extension) or the name is `..`.
pub open spec fn spec_extension(name: Seq<char>) -> Option<Seq<char>> {
    if name == seq!['.', '.'] {
        None
    } else {
        match last_dot(name) {
            Some(i) => if i > 0 { Some(name.skip(i + 1)) } else { None },
            None => None,
        }
    }
}

/// The position of the last `.` in `s`.
pub open spec fn last_dot(s: Seq<char>) -> Option<int>
    decreases s.len(),
{
    if s.len() == 0 {
        None
    } else if s.last() == '.' {
        Some(s.len() - 1)
    } else {
        last_dot(s.drop_last())
    }
}

proof fn lemma_last_dot_in_bounds(s: Seq<char>)
    ensures
        last_dot(s) matches Some(i) ==> 0 <= i < s.len(),
    decreases s.len(),
{
    if s.len() > 0 && s.last() != '.' {
        lemma_last_dot_in_bounds(s.drop_last());
    }
}

fn find_last_dot(s: &[char]) -> (r: Option<usize>)
    ensures
        match last_dot(s@) {
            Some(i) => r == Some(i as usize),
            None => r is None,
        },
{
    let mut k: usize = s.len();
    assert(s@.take(s@.len() as int) =~= s@);
    while k > 0
        invariant
            k <= s@.len(),
            last_dot(s@) == last_dot(s@.take(k as int)),
        decreases k,
    {
        proof {
            assert(s@.take(k as int).drop_last() =~= s@.take(k - 1));
            assert(s@.take(k as int).last() == s@[k - 1]);
        }
        if s[k - 1] == '.' {
            return Some(k - 1);
        }
        k -= 1;
    }
    proof {
        assert(s@.take(0) =~= Seq::<char>::empty());
    }
    None
}

/// A directory entry is a task record when its extension is `json`.
pub open spec fn spec_is_task_file(path: Seq<char>) -> bool {
    match spec_file_name(path) {
        Some(n) => spec_extension(n) == Some("json"@),
        None => false,
    }
}

/// Whether a directory entry of the tasks directory is a task record.
pub fn is_task_file(path: &str) -> (r: bool)
    ensures
        r == spec_is_task_file(path@),
{
    let n = match file_name(path) {
        Some(n) => n,
        None => return false,
    };
    let cs = chars_of(n.as_str());
    if cs.len() == 2 && cs[0] == '.' && cs[1] == '.' {
        proof {
            assert(cs@ =~= seq!['.', '.']);
        }
        return false;
    }
    proof {
        if cs@ == seq!['.', '.'] {
            assert(cs@.len() == 2);
        }
    }
    proof {
        lemma_last_dot_in_bounds(cs@);
    }
    match find_last_dot(&cs) {
        Some(i) => {
            if i == 0 {
                return false;
            }
            let ext = skip_chars(&cs, i + 1);
            seq_eq(&ext, &chars_of("json"))
        },
        None => false,
    }
}

} // verus!
