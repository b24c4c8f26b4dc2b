//! The delivery target: which ref a ball's work forks from and folds back
//! into.
//!
//! If the ball close-gates its live parent — it has `parent = X` and `X`
//! carries the blocker `{this, on: close}` — `X` is its target. Otherwise the
//! target is absent, meaning the integration branch. Both coordinates are
//! needed: a bare parent pointer is containment only, and a close-gate on a
//! non-parent is pure enforcement.

use vstd::prelude::*;
use crate::task::{Blocker, Task, Verb};
use crate::text::{owned, str_eq};

verus! {

/// Some blocker among `blockers` names `id` on `close`.
pub open spec fn spec_close_gated(id: Seq<char>, blockers: Seq<Blocker>) -> bool {
    exists|i: int| #![trigger blockers[i]] 0 <= i < blockers.len() && blockers[i].id@ == id && blockers[i].on == Verb::Close
}

/// Does `id` close-gate `parent`? The nesting declaration: an `{id, on:
/// close}` edge on the parent.
pub fn close_gated(id: &str, parent: &Task) -> (r: bool)
    ensures
        r == spec_close_gated(id@, parent.blockers@),
{
    let bs = &parent.blockers;
    let mut i: usize = 0;
    while i < bs.len()
        invariant
            i <= bs@.len(),
            bs@ == parent.blockers@,
            forall|j: int| #![trigger bs@[j]] 0 <= j < i ==> !(bs@[j].id@ == id@ && bs@[j].on == Verb::Close),
        decreases bs@.len() - i,
    {
        if bs[i].on == Verb::Close && str_eq(bs[i].id.as_str(), id) {
            assert(bs@[i as int].id@ == id@ && bs@[i as int].on == Verb::Close);
            return true;
        }
        i += 1;
    }
    false
}

/// The op's delivery target id. `id` is the op's ball (`None` on create),
/// `before` the ball at op start, and `live_parent` what reading the parent
/// that `before` names gave (`None` when its file is gone: a closed parent
/// gates nothing). `None` means the integration branch.
pub fn derive(id: Option<&str>, before: Option<&Task>, live_parent: Option<&Task>) -> (r: Option<String>)
    ensures
        r is Some <==> (id is Some && before is Some && before->0.parent is Some && live_parent is Some
            && spec_close_gated(id->0@, live_parent->0.blockers@)),
        r matches Some(p) ==> p@ == before->0.parent->0@,
{
    let b = match before {
        Some(b) => b,
        None => return None,
    };
    let parent = match &b.parent {
        Some(p) => p,
        None => return None,
    };
    let live = match live_parent {
        Some(l) => l,
        None => return None,
    };
    let i = match id {
        Some(i) => i,
        None => return None,
    };
    if close_gated(i, live) {
        Some(owned(parent.as_str()))
    } else {
        None
    }
}

} // verus!
