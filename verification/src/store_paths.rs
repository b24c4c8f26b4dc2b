//! Filesystem path rules for locating a store.

use vstd::prelude::*;
use vstd::string::StringSliceAdditionalSpecFns;
use vstd::utf8::{decode_utf8, encode_utf8_decode_utf8, is_char_boundary};
use crate::text::{chars_of, concat, owned, spec_trim, trim};

verus! {

/// The first twelve bytes of `hash`, as characters.
pub open spec fn hash_prefix(hash: &str) -> Seq<char> {
    decode_utf8(hash.spec_bytes().subrange(0, 12))
}

/// Base directory for a stealth/no-git store: under `$HOME`'s XDG data dir
/// when `home` is known, else under `/tmp`, named by the first twelve bytes of
/// `hash` (which must end on a character boundary there).
pub fn dirs_base_for(home: Option<&str>, hash: &str) -> (r: String)
    requires
        is_char_boundary(hash.spec_bytes(), 12),
    ensures
        r@ == match home {
            Some(h) => h@ + "/.local/share/balls/"@ + hash_prefix(hash),
            None => "/tmp/balls-stealth-"@ + hash_prefix(hash),
        },
{
    let (short, _) = hash.split_at(12);
    proof {
        encode_utf8_decode_utf8(short@);
        assert(short@ == hash_prefix(hash));
    }
    match home {
        Some(h) => {
            let mut r = concat(h, "/.local/share/balls/");
            r.append(short);
            r
        },
        None => concat("/tmp/balls-stealth-", short),
    }
}

/// The stealth tasks directory a clone records in `.balls/local/tasks_dir`:
/// its trimmed content when that is an absolute path; `None` when the file
/// could not be read (`contents` is `None`) or holds anything else.
pub fn stealth_tasks_override(contents: Option<&str>) -> (r: Option<String>)
    ensures
        match contents {
            Some(s) => if spec_trim(s@).len() > 0 && spec_trim(s@)[0] == '/' {
                r matches Some(p) && p@ == spec_trim(s@)
            } else {
                r is None
            },
            None => r is None,
        },
{
    match contents {
        Some(s) => {
            let t = trim(s);
            let cs = chars_of(t.as_str());
            if cs.len() > 0 && cs[0] == '/' {
                Some(t)
            } else {
                None
            }
        },
        None => None,
    }
}

} // verus!
