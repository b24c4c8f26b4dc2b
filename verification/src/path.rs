//! Filesystem paths as plain strings, with the joining and naming rules of
//! `std::path` on Unix (`/` the only separator).

use vstd::prelude::*;
use crate::text::{chars_of, push_char, seq_eq, string_of};

verus! {

/// `PathBuf::push`: an absolute `p` replaces `base`; otherwise a separator is
/// inserted unless `base` is empty or already ends with one.
pub open spec fn spec_join(base: Seq<char>, p: Seq<char>) -> Seq<char> {
    if p.len() > 0 && p[0] == '/' {
        p
    } else if base.len() == 0 || base.last() == '/' {
        base + p
    } else {
        base + seq!['/'] + p
    }
}

/// `Path::join`.
pub fn join(base: &str, p: &str) -> (r: String)
    ensures
        r@ == spec_join(base@, p@),
{
    let b = chars_of(base);
    let q = chars_of(p);
    if q.len() > 0 && q[0] == '/' {
        return string_of(&q);
    }
    let mut r = string_of(&b);
    if !(b.len() == 0 || b[b.len() - 1] == '/') {
        push_char(&mut r, '/');
    }
    let mut i: usize = 0;
    let ghost start = r@;
    while i < q.len()
        invariant
            i <= q@.len(),
            r@ == start + q@.take(i as int),
        decreases q@.len() - i,
    {
        push_char(&mut r, q[i]);
        i += 1;
        assert(r@ =~= start + q@.take(i as int));
    }
    assert(q@.take(q@.len() as int) =~= q@);
    proof {
        if b@.len() == 0 || b@.last() == '/' {
            assert(r@ =~= base@ + p@);
        } else {
            assert(r@ =~= base@ + seq!['/'] + p@);
        }
    }
    r
}

/// The segments of a path between separators that name something: empty
/// segments (from repeated or trailing separators) and `.` are dropped, as
/// `Path::components` normalizes them away.
pub open spec fn named_segments(s: Seq<char>) -> Seq<Seq<char>>
    decreases s.len(),
{
    let (done, cur) = segment_scan(s);
    if cur.len() > 0 && cur != seq!['.'] { done.push(cur) } else { done }
}

/// Completed named segments and the segment in progress, read left to right.
pub open spec fn segment_scan(s: Seq<char>) -> (Seq<Seq<char>>, Seq<char>)
    decreases s.len(),
{
    if s.len() == 0 {
        (Seq::empty(), Seq::empty())
    } else {
        let (done, cur) = segment_scan(s.drop_last());
        if s.last() == '/' {
            if cur.len() > 0 && cur != seq!['.'] {
                (done.push(cur), Seq::empty())
            } else {
                (done, Seq::empty())
            }
        } else {
            (done, cur.push(s.last()))
        }
    }
}

/// `Path::file_name`: the final component when it is a normal one; `None`
/// for a path with no components (`/`, ``, `.`) or one ending in `..`.
pub open spec fn spec_file_name(s: Seq<char>) -> Option<Seq<char>> {
    let segs = named_segments(s);
    if segs.len() == 0 || segs.last() == seq!['.', '.'] {
        None
    } else {
        Some(segs.last())
    }
}

/// The final component of `path`, when it is a normal one.
pub fn file_name(path: &str) -> (r: Option<String>)
    ensures
        r matches Some(n) ==> spec_file_name(path@) == Some(n@),
        r is None ==> spec_file_name(path@) is None,
{
    let s = chars_of(path);
    let mut last: Vec<char> = Vec::new();
    let mut has_last = false;
    let mut cur: Vec<char> = Vec::new();
    let mut i: usize = 0;
    while i < s.len()
        invariant
            i <= s@.len(),
            cur@ == segment_scan(s@.take(i as int)).1,
            has_last == (segment_scan(s@.take(i as int)).0.len() > 0),
            has_last ==> last@ == segment_scan(s@.take(i as int)).0.last(),
        decreases s@.len() - i,
    {
        let c = s[i];
        proof {
            assert(s@.take(i + 1).drop_last() =~= s@.take(i as int));
        }
        if c == '/' {
            if cur.len() > 0 && !(cur.len() == 1 && cur[0] == '.') {
                proof {
                    assert(cur@ != seq!['.']);
                }
                last = cur;
                has_last = true;
            } else {
                proof {
                    if cur@.len() == 1 {
                        assert(cur@ =~= seq!['.']);
                    }
                }
            }
            cur = Vec::new();
        } else {
            cur.push(c);
        }
        i += 1;
    }
    proof {
        assert(s@.take(s@.len() as int) =~= s@);
    }
    if cur.len() > 0 && !(cur.len() == 1 && cur[0] == '.') {
        proof {
            assert(cur@ != seq!['.']);
        }
        last = cur;
        has_last = true;
    } else {
        proof {
            if cur@.len() == 1 {
                assert(cur@ =~= seq!['.']);
            }
        }
    }
    if !has_last || (last.len() == 2 && last[0] == '.' && last[1] == '.') {
        proof {
            if has_last {
                assert(last@ =~= seq!['.', '.']);
            }
        }
        None
    } else {
        proof {
            assert(last@ != seq!['.', '.']);
        }
        Some(string_of(&last))
    }
}

} // verus!

verus! {

/// Whether `s` is rooted (begins with `/`).
pub open spec fn spec_is_absolute(s: Seq<char>) -> bool {
    s.len() > 0 && s[0] == '/'
}

/// Whether a relative `s` begins with a `.` component (`.` alone or `./…`),
/// which `Path::components` keeps as its first component.
pub open spec fn spec_leading_cur_dir(s: Seq<char>) -> bool {
    s.len() > 0 && s[0] == '.' && (s.len() == 1 || s[1] == '/')
}

/// `Path` equality: the same components, so repeated and trailing
/// separators and inner `.` components make no difference.
pub open spec fn spec_same_path(a: Seq<char>, b: Seq<char>) -> bool {
    &&& spec_is_absolute(a) == spec_is_absolute(b)
    &&& spec_leading_cur_dir(a) == spec_leading_cur_dir(b)
    &&& named_segments(a) == named_segments(b)
}

fn segments_of(s: &Vec<char>) -> (r: Vec<Vec<char>>)
    ensures
        r@.map_values(|v: Vec<char>| v@) == named_segments(s@),
{
    let mut done: Vec<Vec<char>> = Vec::new();
    let mut cur: Vec<char> = Vec::new();
    let mut i: usize = 0;
    proof {
        assert(s@.take(0) =~= Seq::<char>::empty());
        assert(done@.map_values(|v: Vec<char>| v@) =~= Seq::<Seq<char>>::empty());
    }
    while i < s.len()
        invariant
            i <= s@.len(),
            cur@ == segment_scan(s@.take(i as int)).1,
            done@.map_values(|v: Vec<char>| v@) == segment_scan(s@.take(i as int)).0,
        decreases s@.len() - i,
    {
        let c = s[i];
        proof {
            assert(s@.take(i + 1).drop_last() =~= s@.take(i as int));
        }
        if c == '/' {
            if cur.len() > 0 && !(cur.len() == 1 && cur[0] == '.') {
                proof {
                    assert(cur@ != seq!['.']);
                }
                let ghost before = done@.map_values(|v: Vec<char>| v@);
                let seg = cur;
                cur = Vec::new();
                done.push(seg);
                proof {
                    assert(done@.map_values(|v: Vec<char>| v@) =~= before.push(seg@));
                }
            } else {
                proof {
                    if cur@.len() == 1 {
                        assert(cur@ =~= seq!['.']);
                    }
                }
                cur = Vec::new();
            }
        } else {
            cur.push(c);
        }
        i += 1;
    }
    proof {
        assert(s@.take(s@.len() as int) =~= s@);
    }
    if cur.len() > 0 && !(cur.len() == 1 && cur[0] == '.') {
        proof {
            assert(cur@ != seq!['.']);
        }
        let ghost before = done@.map_values(|v: Vec<char>| v@);
        done.push(cur);
        proof {
            assert(done@.map_values(|v: Vec<char>| v@) =~= before.push(segment_scan(s@).1));
        }
    } else {
        proof {
            if cur@.len() == 1 {
                assert(cur@ =~= seq!['.']);
            }
        }
    }
    done
}

/// Whether `a` and `b` name the same path, as `Path`'s `==` decides.
pub fn same_path(a: &str, b: &str) -> (r: bool)
    ensures
        r == spec_same_path(a@, b@),
{
    let x = chars_of(a);
    let y = chars_of(b);
    let abs_x = x.len() > 0 && x[0] == '/';
    let abs_y = y.len() > 0 && y[0] == '/';
    let cur_x = x.len() > 0 && x[0] == '.' && (x.len() == 1 || x[1] == '/');
    let cur_y = y.len() > 0 && y[0] == '.' && (y.len() == 1 || y[1] == '/');
    if abs_x != abs_y || cur_x != cur_y {
        return false;
    }
    let sx = segments_of(&x);
    let sy = segments_of(&y);
    let ghost vx = sx@.map_values(|v: Vec<char>| v@);
    let ghost vy = sy@.map_values(|v: Vec<char>| v@);
    if sx.len() != sy.len() {
        proof {
            assert(vx.len() != vy.len());
        }
        return false;
    }
    let mut i: usize = 0;
    while i < sx.len()
        invariant
            i <= sx@.len(),
            sx@.len() == sy@.len(),
            vx == sx@.map_values(|v: Vec<char>| v@),
            vy == sy@.map_values(|v: Vec<char>| v@),
            vx == named_segments(a@),
            vy == named_segments(b@),
            forall|j: int| 0 <= j < i ==> vx[j] == vy[j],
        decreases sx@.len() - i,
    {
        if !seq_eq(sx[i].as_slice(), sy[i].as_slice()) {
            proof {
                assert(vx[i as int] != vy[i as int]);
            }
            return false;
        }
        i += 1;
    }
    proof {
        assert(vx =~= vy);
    }
    true
}

} // verus!
