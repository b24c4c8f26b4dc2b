//! What a finished `git` process hands back, as plain values, and the common
//! reading of it: success yields the trimmed standard output, failure an error
//! carrying git's own voice.

use vstd::prelude::*;
use crate::text::{concat, spec_trim, trim};

verus! {

/// The outcome of one `git` invocation: whether it exited successfully, its
/// exit code (`None` when killed by a signal), and its output decoded as text.
pub struct GitOutput {
    pub success: bool,
    pub code: Option<i32>,
    pub stdout: String,
    pub stderr: String,
}

/// `"{what}: {stderr.trim()}"`.
pub open spec fn failure_message(what: Seq<char>, stderr: Seq<char>) -> Seq<char> {
    what + ": "@ + spec_trim(stderr)
}

/// Success gives the trimmed standard output; failure an error naming the act
/// and carrying git's trimmed standard error.
pub open spec fn spec_ok_stdout(out: GitOutput, what: Seq<char>) -> Result<Seq<char>, Seq<char>> {
    if out.success {
        Ok(spec_trim(out.stdout@))
    } else {
        Err(failure_message(what, out.stderr@))
    }
}

/// Success → trimmed stdout; failure → an error carrying git's stderr voice.
pub fn ok_stdout(out: &GitOutput, what: &str) -> (r: Result<String, String>)
    ensures
        r matches Ok(s) ==> spec_ok_stdout(*out, what@) == Ok::<Seq<char>, Seq<char>>(s@),
        r matches Err(e) ==> spec_ok_stdout(*out, what@) == Err::<Seq<char>, Seq<char>>(e@),
{
    if out.success {
        Ok(trim(out.stdout.as_str()))
    } else {
        let mut m = concat(what, ": ");
        m.append(trim(out.stderr.as_str()).as_str());
        Err(m)
    }
}

} // verus!
