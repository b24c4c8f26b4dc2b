//! Unique task-id minting: an id is derived from the title and a timestamp,
//! and on collision the timestamp steps forward one millisecond and the id is
//! derived again, up to a fixed number of tries.

use vstd::prelude::*;
use crate::error::{BallError, BallErrorV};
use crate::text::owned;

verus! {

/// The refusal once every try collided.
pub open spec fn exhausted_message() -> Seq<char> {
    "could not generate unique task id after 1000 tries"@
}

/// `generate` derived `id` from instant `t`, and `in_use` reported it as
/// `taken`.
pub open spec fn tried<G: Fn(i64) -> String, E: Fn(&str) -> bool>(generate: G, in_use: E, t: int, taken: bool) -> bool {
    exists|id: String, s: &str|
        #![trigger call_ensures(generate, (t as i64,), id), call_ensures(in_use, (s,), taken)]
        s@ == id@ && call_ensures(generate, (t as i64,), id) && call_ensures(in_use, (s,), taken)
}

/// `generate` derived `id` from instant `t`, and `in_use` reported it free.
pub open spec fn picked<G: Fn(i64) -> String, E: Fn(&str) -> bool>(generate: G, in_use: E, t: int, id: String) -> bool {
    call_ensures(generate, (t as i64,), id) && exists|s: &str| s@ == id@ && #[trigger] call_ensures(in_use, (s,), false)
}

/// The first id that `in_use` does not report as taken, among the ids
/// `generate` derives from `start`, `start + 1`, … (milliseconds), trying at
/// most a thousand and one instants.
pub fn next_unique_id<G: Fn(i64) -> String, E: Fn(&str) -> bool>(
    start: i64,
    generate: &G,
    in_use: &E,
) -> (r: Result<String, BallError>)
    requires
        start <= i64::MAX - 1000,
        forall|t: i64| #[trigger] generate.requires((t,)),
        forall|s: &str| #[trigger] in_use.requires((s,)),
    ensures
        r matches Ok(id) ==> exists|t: int| start <= t <= start + 1000 && #[trigger] picked(*generate, *in_use, t, id),
        r matches Err(e) ==> e@ == BallErrorV::Other(exhausted_message()) && forall|t: int|
            start <= t <= start + 1000 ==> #[trigger] tried(*generate, *in_use, t, true),
{
    let mut now: i64 = start;
    let mut id = generate(now);
    let mut tries: i64 = 0;
    loop
        invariant
            0 <= tries <= 1000,
            now == start + tries,
            start <= i64::MAX - 1000,
            forall|t: i64| #[trigger] generate.requires((t,)),
            forall|s: &str| #[trigger] in_use.requires((s,)),
            call_ensures(*generate, (now,), id),
            forall|t: int| start <= t < start + tries ==> #[trigger] tried(*generate, *in_use, t, true),
        decreases 1001 - tries,
    {
        let s = id.as_str();
        let taken = in_use(s);
        proof {
            assert(((start + tries) as i64) == now);
            assert(call_ensures(*generate, ((start + tries) as i64,), id));
            assert(s@ == id@);
            assert(call_ensures(*in_use, (s,), taken));
        }
        if !taken {
            proof {
                assert(picked(*generate, *in_use, start + tries, id));
            }
            let ghost chosen = id;
            let r: Result<String, BallError> = Ok(id);
            assert(r matches Ok(x) && x == chosen);
            return r;
        }
        proof {
            assert(tried(*generate, *in_use, start + tries, true));
        }
        tries = tries + 1;
        if tries > 1000 {
            return Err(BallError::Other(owned("could not generate unique task id after 1000 tries")));
        }
        now = now + 1;
        id = generate(now);
    }
}

} // verus!
