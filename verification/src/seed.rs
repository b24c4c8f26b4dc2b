//! The seed: the default configuration a fresh landing is populated from,
//! and the binding of each scheduled plugin to its sibling binary beside
//! `bl`. Reading the schedule, checking the disk and making the links is the
//! caller's.

use vstd::prelude::*;
use crate::path::{join, spec_join};
use crate::text::{owned, strings_view};

verus! {

/// Where each plugin the schedule names would be found beside `bl`: the
/// pair of the plugin's name and `<exe_dir>/<name>`, in schedule order; none
/// at all without an `exe_dir` (a tracker-less box binds nothing). Each
/// candidate that exists is bound; rebinding an established landing never
/// prunes or rewrites its committed schedule.
pub open spec fn spec_rebind(exe_dir: Option<Seq<char>>, names: Seq<Seq<char>>) -> Seq<(Seq<char>, Seq<char>)> {
    match exe_dir {
        Some(d) => names.map_values(|n: Seq<char>| (n, spec_join(d, n))),
        None => Seq::empty(),
    }
}

/// See [`spec_rebind`].
pub fn rebind(exe_dir: Option<&str>, names: &Vec<String>) -> (r: Vec<(String, String)>)
    ensures
        r@.map_values(|p: (String, String)| (p.0@, p.1@)) == spec_rebind(
            match exe_dir { Some(d) => Some(d@), None => None },
            strings_view(names@),
        ),
{
    let mut r: Vec<(String, String)> = Vec::new();
    let d = match exe_dir {
        Some(d) => d,
        None => {
            proof {
                assert(r@.map_values(|p: (String, String)| (p.0@, p.1@)) =~= Seq::<(Seq<char>, Seq<char>)>::empty());
            }
            return r;
        },
    };
    let ghost want = spec_rebind(Some(d@), strings_view(names@));
    let mut i: usize = 0;
    while i < names.len()
        invariant
            i <= names@.len(),
            want == spec_rebind(Some(d@), strings_view(names@)),
            r@.map_values(|p: (String, String)| (p.0@, p.1@)) == want.take(i as int),
        decreases names@.len() - i,
    {
        let n = &names[i];
        let ghost before = r@.map_values(|p: (String, String)| (p.0@, p.1@));
        proof {
            assert(strings_view(names@)[i as int] == n@);
            assert(want[i as int] == (n@, spec_join(d@, n@)));
        }
        r.push((owned(n.as_str()), join(d, n.as_str())));
        proof {
            assert(r@.map_values(|p: (String, String)| (p.0@, p.1@)) =~= before.push((n@, spec_join(d@, n@))));
        }
        i += 1;
        proof {
            assert(r@.map_values(|p: (String, String)| (p.0@, p.1@)) =~= want.take(i as int));
        }
    }
    proof {
        assert(want.take(names@.len() as int) =~= want);
    }
    r
}

} // verus!
