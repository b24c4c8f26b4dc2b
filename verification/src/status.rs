//! Task lifecycle status of the stored (JSON) task record.
//!
//! `Unknown(String)` exists purely for forward compatibility: a status written
//! by a newer client round-trips verbatim instead of hard-erroring on the whole
//! task file. [`Status::parse`] (the CLI entry point) never produces `Unknown`,
//! and an `Unknown` status has the lowest precedence, so conflict resolution
//! never elects it over a known one.

use vstd::prelude::*;
use crate::error::BallError;
use crate::text::{concat, owned, str_eq};

verus! {

#[derive(Debug)]
pub enum Status {
    Open,
    InProgress,
    Review,
    Blocked,
    Closed,
    Deferred,
    Unknown(String),
}

/// The status a word names, `None` for a word that names none.
pub open spec fn spec_parse(s: Seq<char>) -> Option<Status> {
    if s == "open"@ {
        Some(Status::Open)
    } else if s == "in_progress"@ {
        Some(Status::InProgress)
    } else if s == "review"@ {
        Some(Status::Review)
    } else if s == "blocked"@ {
        Some(Status::Blocked)
    } else if s == "closed"@ {
        Some(Status::Closed)
    } else if s == "deferred"@ {
        Some(Status::Deferred)
    } else {
        None
    }
}

/// The status a stored word reads back as: a known word, else `Unknown`
/// carrying the word verbatim.
pub open spec fn spec_stored(s: String) -> Status {
    match spec_parse(s@) {
        Some(st) => st,
        None => Status::Unknown(s),
    }
}

impl Status {
    /// Resolution precedence: closed > review > in_progress > blocked > open >
    /// deferred > unknown.
    pub open spec fn spec_precedence(&self) -> u8 {
        match self {
            Status::Closed => 6,
            Status::Review => 5,
            Status::InProgress => 4,
            Status::Blocked => 3,
            Status::Open => 2,
            Status::Deferred => 1,
            Status::Unknown(_) => 0,
        }
    }

    /// The word a status is written as.
    pub open spec fn spec_as_str(&self) -> Seq<char> {
        match self {
            Status::Open => "open"@,
            Status::InProgress => "in_progress"@,
            Status::Review => "review"@,
            Status::Blocked => "blocked"@,
            Status::Closed => "closed"@,
            Status::Deferred => "deferred"@,
            Status::Unknown(s) => s@,
        }
    }

    /// Parse a CLI status word. Only the six known words are accepted.
    pub fn parse(s: &str) -> (res: Result<Status, BallError>)
        ensures
            match spec_parse(s@) {
                Some(st) => res == Ok::<Status, BallError>(st),
                None => res matches Err(BallError::InvalidTask(m)) && m@ == "unknown status: "@ + s@,
            },
    {
        if str_eq(s, "open") {
            Ok(Status::Open)
        } else if str_eq(s, "in_progress") {
            Ok(Status::InProgress)
        } else if str_eq(s, "review") {
            Ok(Status::Review)
        } else if str_eq(s, "blocked") {
            Ok(Status::Blocked)
        } else if str_eq(s, "closed") {
            Ok(Status::Closed)
        } else if str_eq(s, "deferred") {
            Ok(Status::Deferred)
        } else {
            Err(BallError::InvalidTask(concat("unknown status: ", s)))
        }
    }

    /// The status a stored word reads back as (the deserializer's rule): any
    /// word that [`Status::parse`] rejects becomes `Unknown`, kept verbatim.
    pub fn from_stored(s: String) -> (res: Status)
        ensures
            res == spec_stored(s),
    {
        if str_eq(s.as_str(), "open") {
            Status::Open
        } else if str_eq(s.as_str(), "in_progress") {
            Status::InProgress
        } else if str_eq(s.as_str(), "review") {
            Status::Review
        } else if str_eq(s.as_str(), "blocked") {
            Status::Blocked
        } else if str_eq(s.as_str(), "closed") {
            Status::Closed
        } else if str_eq(s.as_str(), "deferred") {
            Status::Deferred
        } else {
            Status::Unknown(s)
        }
    }

    pub fn precedence(&self) -> (p: u8)
        ensures
            p == self.spec_precedence(),
    {
        match self {
            Status::Closed => 6,
            Status::Review => 5,
            Status::InProgress => 4,
            Status::Blocked => 3,
            Status::Open => 2,
            Status::Deferred => 1,
            Status::Unknown(_) => 0,
        }
    }

    pub fn as_str(&self) -> (r: &str)
        ensures
            r@ == self.spec_as_str(),
    {
        match self {
            Status::Open => "open",
            Status::InProgress => "in_progress",
            Status::Review => "review",
            Status::Blocked => "blocked",
            Status::Closed => "closed",
            Status::Deferred => "deferred",
            Status::Unknown(s) => s.as_str(),
        }
    }

    /// A copy of this status.
    pub fn duplicate(&self) -> (r: Status)
        ensures
            r == *self,
    {
        match self {
            Status::Open => Status::Open,
            Status::InProgress => Status::InProgress,
            Status::Review => Status::Review,
            Status::Blocked => Status::Blocked,
            Status::Closed => Status::Closed,
            Status::Deferred => Status::Deferred,
            Status::Unknown(s) => Status::Unknown(s.clone()),
        }
    }

    /// Whether this is `Closed`.
    pub fn is_closed(&self) -> (r: bool)
        ensures
            r == (*self is Closed),
    {
        matches!(self, Status::Closed)
    }

    /// The word this status is written as, owned.
    pub fn to_word(&self) -> (r: String)
        ensures
            r@ == self.spec_as_str(),
    {
        owned(self.as_str())
    }
}

/// Writing a known status and parsing the word back gives the same status;
/// parsing never yields `Unknown`, and a known status always outranks
/// `Unknown`.
pub proof fn status_word_round_trips(st: Status)
    ensures
        !(st is Unknown) ==> spec_parse(st.spec_as_str()) == Some(st),
        forall|w: String| !(st is Unknown) && w@ == st.spec_as_str() ==> #[trigger] spec_stored(w) == st,
        forall|w: Seq<char>| #[trigger] spec_parse(w) matches Some(p) ==> !(p is Unknown),
        !(st is Unknown) ==> st.spec_precedence() > 0,
{
    reveal_strlit("open");
    reveal_strlit("in_progress");
    reveal_strlit("review");
    reveal_strlit("blocked");
    reveal_strlit("closed");
    reveal_strlit("deferred");
    assert("open"@.len() == 4);
    assert("in_progress"@.len() == 11);
    assert("review"@.len() == 6);
    assert("blocked"@.len() == 7);
    assert("closed"@.len() == 6);
    assert("deferred"@.len() == 8);
    assert("review"@[0] != "closed"@[0]);
}

/// Precedence orders the known statuses strictly: no two known statuses share
/// a precedence, so "highest precedence wins" always picks one status.
pub proof fn precedence_is_injective_on_known(a: Status, b: Status)
    requires
        !(a is Unknown),
        !(b is Unknown),
        a.spec_precedence() == b.spec_precedence(),
    ensures
        a == b,
{
}

} // verus!
