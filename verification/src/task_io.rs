//! The text-mergeable layout of a stored task record.
//!
//! A record is written as a JSON object with its keys sorted, one key per
//! line with the value compact on the same line, and a trailing newline; the
//! `notes` field is left out (notes live in an append-only sidecar). Two
//! workers changing different fields then touch different lines, which plain
//! `git merge` combines.
//!
//! Turning the record into JSON values is the caller's; the layout is here.

use vstd::prelude::*;
use vstd::relations::{sorted_by, total_ordering};
use crate::error::BallError;
use crate::text::{chars_of, owned, spec_join_sep, str_eq};

verus! {

/// Lexicographic order on character sequences, by code point (for UTF-8
/// text, the byte order `String`'s `Ord` uses).
pub open spec fn seq_le(a: Seq<char>, b: Seq<char>) -> bool
    decreases a.len(),
{
    if a.len() == 0 {
        true
    } else if b.len() == 0 {
        false
    } else if a[0] != b[0] {
        (a[0] as int) < (b[0] as int)
    } else {
        seq_le(a.drop_first(), b.drop_first())
    }
}

/// A field is `(key, compact JSON value)`. Fields are ordered by key (the
/// fields of one JSON object have distinct keys), then by value.
pub open spec fn field_le(p: (Seq<char>, Seq<char>), q: (Seq<char>, Seq<char>)) -> bool {
    if p.0 == q.0 {
        seq_le(p.1, q.1)
    } else {
        seq_le(p.0, q.0)
    }
}

/// [`field_le`] as a relation.
pub open spec fn field_order() -> spec_fn((Seq<char>, Seq<char>), (Seq<char>, Seq<char>)) -> bool {
    |p: (Seq<char>, Seq<char>), q: (Seq<char>, Seq<char>)| field_le(p, q)
}

proof fn lemma_seq_le_refl(a: Seq<char>)
    ensures
        seq_le(a, a),
    decreases a.len(),
{
    if a.len() > 0 {
        lemma_seq_le_refl(a.drop_first());
    }
}

proof fn lemma_seq_le_antisym(a: Seq<char>, b: Seq<char>)
    requires
        seq_le(a, b),
        seq_le(b, a),
    ensures
        a == b,
    decreases a.len(),
{
    if a.len() > 0 && b.len() > 0 && a[0] == b[0] {
        lemma_seq_le_antisym(a.drop_first(), b.drop_first());
        assert(a =~= seq![a[0]] + a.drop_first());
        assert(b =~= seq![b[0]] + b.drop_first());
    }
}

proof fn lemma_seq_le_trans(a: Seq<char>, b: Seq<char>, c: Seq<char>)
    requires
        seq_le(a, b),
        seq_le(b, c),
    ensures
        seq_le(a, c),
    decreases a.len(),
{
    if a.len() > 0 && b.len() > 0 && c.len() > 0 && a[0] == b[0] && b[0] == c[0] {
        lemma_seq_le_trans(a.drop_first(), b.drop_first(), c.drop_first());
    }
}

proof fn lemma_seq_le_total(a: Seq<char>, b: Seq<char>)
    ensures
        seq_le(a, b) || seq_le(b, a),
    decreases a.len(),
{
    if a.len() > 0 && b.len() > 0 && a[0] == b[0] {
        lemma_seq_le_total(a.drop_first(), b.drop_first());
    }
}

/// Fields are totally ordered.
pub proof fn lemma_field_order_total()
    ensures
        total_ordering(field_order()),
{
    assert forall|p: (Seq<char>, Seq<char>)| #[trigger] field_order()(p, p) by {
        lemma_seq_le_refl(p.1);
    }
    assert forall|p: (Seq<char>, Seq<char>), q: (Seq<char>, Seq<char>)|
        #[trigger] field_order()(p, q) && #[trigger] field_order()(q, p) implies p == q by {
        if p.0 == q.0 {
            lemma_seq_le_antisym(p.1, q.1);
        } else {
            lemma_seq_le_antisym(p.0, q.0);
        }
    }
    assert forall|p: (Seq<char>, Seq<char>), q: (Seq<char>, Seq<char>), s: (Seq<char>, Seq<char>)|
        #[trigger] field_order()(p, q) && #[trigger] field_order()(q, s) implies field_order()(p, s) by {
        if p.0 == q.0 && q.0 == s.0 {
            lemma_seq_le_trans(p.1, q.1, s.1);
        } else if p.0 == q.0 {
        } else if q.0 == s.0 {
        } else {
            lemma_seq_le_trans(p.0, q.0, s.0);
            if p.0 == s.0 {
                lemma_seq_le_antisym(p.0, q.0);
            }
        }
    }
    assert forall|p: (Seq<char>, Seq<char>), q: (Seq<char>, Seq<char>)|
        #[trigger] field_order()(p, q) || #[trigger] field_order()(q, p) by {
        if p.0 == q.0 {
            lemma_seq_le_total(p.1, q.1);
        } else {
            lemma_seq_le_total(p.0, q.0);
        }
    }
}

fn seq_le_exec(a: &Vec<char>, b: &Vec<char>) -> (r: bool)
    ensures
        r == seq_le(a@, b@),
{
    let mut i: usize = 0;
    assert(a@.skip(0) =~= a@);
    assert(b@.skip(0) =~= b@);
    while i < a.len() && i < b.len() && a[i] == b[i]
        invariant
            i <= a@.len(),
            i <= b@.len(),
            seq_le(a@, b@) == seq_le(a@.skip(i as int), b@.skip(i as int)),
        decreases a@.len() - i,
    {
        proof {
            assert(a@.skip(i as int).drop_first() =~= a@.skip(i + 1));
            assert(b@.skip(i as int).drop_first() =~= b@.skip(i + 1));
        }
        i += 1;
    }
    if i == a.len() {
        true
    } else if i == b.len() {
        false
    } else {
        proof {
            assert(a@.skip(i as int)[0] == a@[i as int]);
            assert(b@.skip(i as int)[0] == b@[i as int]);
        }
        a[i] < b[i]
    }
}

/// The fields as plain values.
pub open spec fn fields_v(s: Seq<(String, String)>) -> Seq<(Seq<char>, Seq<char>)> {
    s.map_values(|p: (String, String)| (p.0@, p.1@))
}

fn field_le_exec(p: &(String, String), q: &(String, String)) -> (r: bool)
    ensures
        r == field_le((p.0@, p.1@), (q.0@, q.1@)),
{
    if str_eq(p.0.as_str(), q.0.as_str()) {
        seq_le_exec(&chars_of(p.1.as_str()), &chars_of(q.1.as_str()))
    } else {
        seq_le_exec(&chars_of(p.0.as_str()), &chars_of(q.0.as_str()))
    }
}

/// The fields other than `notes`, in their order.
pub open spec fn without_notes(s: Seq<(Seq<char>, Seq<char>)>) -> Seq<(Seq<char>, Seq<char>)>
    decreases s.len(),
{
    if s.len() == 0 {
        s
    } else if s.last().0 == "notes"@ {
        without_notes(s.drop_last())
    } else {
        without_notes(s.drop_last()).push(s.last())
    }
}

/// The fields to write, in key order.
pub open spec fn layout_fields(fields: Seq<(Seq<char>, Seq<char>)>) -> Seq<(Seq<char>, Seq<char>)> {
    without_notes(fields).sort_by(field_order())
}

/// The lowercase hexadecimal digit of `n` (below 16).
pub open spec fn hex_digit(n: int) -> char {
    if n < 10 {
        (48 + n) as char
    } else {
        (87 + n) as char
    }
}

/// How one character is written inside a JSON string: `"` and `\` and the
/// control characters backspace, tab, newline, form feed and carriage
/// return by their short escapes, every other character below 0x20 as
/// `\u00XX` (lowercase hex), and every other character as itself.
pub open spec fn json_escape_char(c: char) -> Seq<char> {
    if c == '"' {
        seq!['\\', '"']
    } else if c == '\\' {
        seq!['\\', '\\']
    } else if c == '\u{8}' {
        seq!['\\', 'b']
    } else if c == '\t' {
        seq!['\\', 't']
    } else if c == '\n' {
        seq!['\\', 'n']
    } else if c == '\u{c}' {
        seq!['\\', 'f']
    } else if c == '\r' {
        seq!['\\', 'r']
    } else if (c as int) < 0x20 {
        seq!['\\', 'u', '0', '0', hex_digit((c as int) / 16), hex_digit((c as int) % 16)]
    } else {
        seq![c]
    }
}

/// The escaped contents of a JSON string, character by character.
pub open spec fn json_escape(s: Seq<char>) -> Seq<char>
    decreases s.len(),
{
    if s.len() == 0 {
        Seq::empty()
    } else {
        json_escape(s.drop_last()) + json_escape_char(s.last())
    }
}

/// The JSON text of a string: its escaped contents between double quotes.
pub open spec fn json_string(s: Seq<char>) -> Seq<char> {
    seq!['"'] + json_escape(s) + seq!['"']
}

/// Quote `s` as a JSON string with `serde_json::to_string`. On a `&str` the
/// serializer writes the opening quote, each byte run that needs no escape
/// as it is, each escaped byte by its escape, and the closing quote, into a
/// `Vec`, so the call does not fail.
#[verifier::external_body]
fn quote_json(s: &str) -> (r: String)
    ensures
        r@ == json_string(s@),
{
    serde_json::to_string(s).unwrap_or_default()
}

/// Line `i` of the layout: `  "<key>": <value>`, a comma unless it is the
/// last field, and a newline.
pub open spec fn field_line(s: Seq<(Seq<char>, Seq<char>)>, i: int) -> Seq<char> {
    "  "@ + json_string(s[i].0) + ": "@ + s[i].1 + (if i + 1 < s.len() { ","@ } else { Seq::empty() }) + "\n"@
}

/// The first `k` lines of the layout.
pub open spec fn field_lines(s: Seq<(Seq<char>, Seq<char>)>, k: int) -> Seq<char>
    decreases k,
{
    if k <= 0 {
        Seq::empty()
    } else {
        field_lines(s, k - 1) + field_line(s, k - 1)
    }
}

/// The whole layout of already-ordered fields.
pub open spec fn spec_layout(s: Seq<(Seq<char>, Seq<char>)>) -> Seq<char> {
    "{\n"@ + field_lines(s, s.len() as int) + "}\n"@
}

/// The record's text: the fields other than `notes`, sorted, one per line.
pub open spec fn spec_mergeable(fields: Seq<(Seq<char>, Seq<char>)>) -> Seq<char> {
    spec_layout(layout_fields(fields))
}

/// Insert `x` after every field that orders at or before it.
fn insert_sorted(r: &mut Vec<(String, String)>, x: (String, String))
    requires
        sorted_by(fields_v(old(r)@), field_order()),
    ensures
        sorted_by(fields_v(final(r)@), field_order()),
        fields_v(final(r)@).to_multiset() == fields_v(old(r)@).to_multiset().insert((x.0@, x.1@)),
{
    proof {
        lemma_field_order_total();
    }
    let ghost xv = (x.0@, x.1@);
    let ghost rv = fields_v(r@);
    let mut p: usize = 0;
    while p < r.len() && field_le_exec(&r[p], &x)
        invariant
            p <= r@.len(),
            rv == fields_v(r@),
            xv == (x.0@, x.1@),
            forall|j: int| 0 <= j < p ==> field_le(#[trigger] rv[j], xv),
        decreases r@.len() - p,
    {
        p += 1;
    }
    proof {
        if p < rv.len() {
            assert(!field_le(rv[p as int], xv));
            assert(field_order()(xv, rv[p as int]) || field_order()(rv[p as int], xv));
        }
    }
    r.insert(p, x);
    proof {
        let nv = fields_v(r@);
        assert(nv =~= rv.insert(p as int, xv));
        vstd::seq_lib::to_multiset_insert(rv, p as int, xv);
        assert forall|i: int, j: int| 0 <= i < j < nv.len() implies #[trigger] field_order()(nv[i], nv[j]) by {
            if j < p {
                assert(nv[i] == rv[i] && nv[j] == rv[j]);
                assert(field_order()(rv[i], rv[j]));
            } else if j == p {
                assert(nv[i] == rv[i] && nv[j] == xv);
            } else if i == p {
                assert(nv[j] == rv[j - 1]);
                if j - 1 > p {
                    assert(field_order()(rv[p as int], rv[j - 1]));
                }
                assert(field_order()(xv, rv[p as int]));
            } else if i < p {
                assert(nv[i] == rv[i] && nv[j] == rv[j - 1]);
                assert(field_order()(rv[i], rv[j - 1]));
            } else {
                assert(nv[i] == rv[i - 1] && nv[j] == rv[j - 1]);
                assert(field_order()(rv[i - 1], rv[j - 1]));
            }
        }
    }
}

/// The fields other than `notes`, sorted into layout order.
fn sorted_fields(fields: &Vec<(String, String)>) -> (r: Vec<(String, String)>)
    ensures
        fields_v(r@) == layout_fields(fields_v(fields@)),
{
    let ghost fv = fields_v(fields@);
    let mut r: Vec<(String, String)> = Vec::new();
    let mut k: usize = 0;
    proof {
        assert(fields_v(r@) =~= Seq::<(Seq<char>, Seq<char>)>::empty());
        assert(fv.take(0) =~= Seq::<(Seq<char>, Seq<char>)>::empty());
    }
    while k < fields.len()
        invariant
            k <= fields@.len(),
            fv == fields_v(fields@),
            sorted_by(fields_v(r@), field_order()),
            fields_v(r@).to_multiset() == without_notes(fv.take(k as int)).to_multiset(),
        decreases fields@.len() - k,
    {
        proof {
            assert(fv.take(k + 1).drop_last() =~= fv.take(k as int));
        }
        let (key, val) = &fields[k];
        proof {
            assert(fv.take(k + 1).last() == fv[k as int]);
            assert(fv[k as int] == (key@, val@));
        }
        if !str_eq(key.as_str(), "notes") {
            let ghost before = fields_v(r@);
            insert_sorted(&mut r, (owned(key.as_str()), owned(val.as_str())));
            proof {
                let w = without_notes(fv.take(k as int));
                vstd::seq_lib::to_multiset_build(w, fv[k as int]);
                assert(without_notes(fv.take(k + 1)) == w.push(fv[k as int]));
                assert(fields_v(r@).to_multiset() == before.to_multiset().insert(fv[k as int]));
            }
        } else {
            proof {
                assert(without_notes(fv.take(k + 1)) == without_notes(fv.take(k as int)));
            }
        }
        k += 1;
    }
    proof {
        assert(fv.take(fields@.len() as int) =~= fv);
        lemma_field_order_total();
        without_notes(fv).lemma_sort_by_ensures(field_order());
        vstd::seq_lib::lemma_sorted_unique(fields_v(r@), layout_fields(fv), field_order());
    }
    r
}

/// Lay out a task record's fields in the text-mergeable format: `fields`
/// pairs each top-level key of the record's JSON object with its value as
/// compact JSON. Laying the fields out does not fail.
pub fn serialize_mergeable(fields: &Vec<(String, String)>) -> (r: Result<String, BallError>)
    ensures
        r matches Ok(s) && s@ == spec_mergeable(fields_v(fields@)),
{
    let sorted = sorted_fields(fields);
    let ghost sv = fields_v(sorted@);
    let mut out = owned("{\n");
    let mut i: usize = 0;
    while i < sorted.len()
        invariant
            i <= sorted@.len(),
            sv == fields_v(sorted@),
            out@ == "{\n"@ + field_lines(sv, i as int),
        decreases sorted@.len() - i,
    {
        proof {
            assert(sv[i as int] == (sorted@[i as int].0@, sorted@[i as int].1@));
        }
        let q = quote_json(sorted[i].0.as_str());
        out.append("  ");
        out.append(q.as_str());
        out.append(": ");
        out.append(sorted[i].1.as_str());
        if i + 1 < sorted.len() {
            out.append(",");
        }
        out.append("\n");
        proof {
            assert(sv[i as int] == (sorted@[i as int].0@, sorted@[i as int].1@));
            let line = field_line(sv, i as int);
            if i + 1 < sorted@.len() {
                assert(out@ =~= "{\n"@ + field_lines(sv, i as int) + line);
            } else {
                assert(out@ =~= "{\n"@ + field_lines(sv, i as int) + line);
            }
        }
        i += 1;
    }
    out.append("}\n");
    Ok(out)
}

} // verus!

verus! {

/// The written fields are sorted, are exactly the record's fields other
/// than `notes` (as a multiset: none added, none lost), and never include
/// `notes`.
pub proof fn layout_is_sorted_and_drops_notes(fields: Seq<(Seq<char>, Seq<char>)>)
    ensures
        sorted_by(layout_fields(fields), field_order()),
        layout_fields(fields).to_multiset() == without_notes(fields).to_multiset(),
        forall|i: int| 0 <= i < layout_fields(fields).len() ==> (#[trigger] layout_fields(fields)[i]).0 != "notes"@,
{
    lemma_field_order_total();
    without_notes(fields).lemma_sort_by_ensures(field_order());
    lemma_without_notes_has_no_notes(fields);
    assert forall|i: int| 0 <= i < layout_fields(fields).len() implies (#[trigger] layout_fields(fields)[i]).0
        != "notes"@ by {
        let x = layout_fields(fields)[i];
        assert(layout_fields(fields).contains(x));
        if !without_notes(fields).contains(x) {
            assert(!layout_fields(fields).contains(x));
        }
    }
}

proof fn lemma_without_notes_has_no_notes(s: Seq<(Seq<char>, Seq<char>)>)
    ensures
        forall|x: (Seq<char>, Seq<char>)| #[trigger] without_notes(s).contains(x) ==> x.0 != "notes"@,
    decreases s.len(),
{
    if s.len() > 0 {
        lemma_without_notes_has_no_notes(s.drop_last());
        assert forall|x: (Seq<char>, Seq<char>)| #[trigger] without_notes(s).contains(x) implies x.0 != "notes"@ by {
            if s.last().0 != "notes"@ {
                let w = without_notes(s.drop_last());
                if x != s.last() {
                    let k = choose|k: int| 0 <= k < without_notes(s).len() && without_notes(s)[k] == x;
                    assert(w.contains(x)) by {
                        assert(w[k] == x);
                    }
                }
            }
        }
    }
}

} // verus!

verus! {

/// One written field, without its separator: `  "<key>": <value>`.
pub open spec fn field_entry(p: (Seq<char>, Seq<char>)) -> Seq<char> {
    "  "@ + json_string(p.0) + ": "@ + p.1
}

proof fn lemma_layout_literals()
    ensures
        ",\n"@ == ","@ + "\n"@,
        "\n}\n"@ == "\n"@ + "}\n"@,
        "{\n}\n"@ == "{\n"@ + "}\n"@,
{
    reveal_strlit(",");
    reveal_strlit("\n");
    reveal_strlit(",\n");
    reveal_strlit("}\n");
    reveal_strlit("\n}\n");
    reveal_strlit("{\n");
    reveal_strlit("{\n}\n");
    assert(",\n"@ =~= ","@ + "\n"@);
    assert("\n}\n"@ =~= "\n"@ + "}\n"@);
    assert("{\n}\n"@ =~= "{\n"@ + "}\n"@);
}

proof fn lemma_field_lines_joined(s: Seq<(Seq<char>, Seq<char>)>, k: int)
    requires
        1 <= k <= s.len(),
    ensures
        field_lines(s, k) == spec_join_sep(s.take(k).map_values(|p: (Seq<char>, Seq<char>)| field_entry(p)), ",\n"@)
            + (if k < s.len() { ",\n"@ } else { "\n"@ }),
    decreases k,
{
    lemma_layout_literals();
    let es = s.take(k).map_values(|p: (Seq<char>, Seq<char>)| field_entry(p));
    if k == 1 {
        assert(field_lines(s, 0) == Seq::<char>::empty());
        assert(es.len() == 1);
        assert(es[0] == field_entry(s[0]));
        if k < s.len() {
            assert(field_lines(s, 1) =~= es[0] + ",\n"@);
        } else {
            assert(field_lines(s, 1) =~= es[0] + "\n"@);
        }
    } else {
        lemma_field_lines_joined(s, k - 1);
        let pre = s.take(k - 1).map_values(|p: (Seq<char>, Seq<char>)| field_entry(p));
        assert(es.drop_last() =~= pre);
        assert(es.last() == field_entry(s[k - 1]));
        assert(spec_join_sep(es, ",\n"@) == spec_join_sep(pre, ",\n"@) + ",\n"@ + field_entry(s[k - 1]));
        if k < s.len() {
            assert(field_lines(s, k) =~= spec_join_sep(es, ",\n"@) + ",\n"@);
        } else {
            assert(field_lines(s, k) =~= spec_join_sep(es, ",\n"@) + "\n"@);
        }
    }
}

/// The laid-out record is a JSON object with one field per line: its
/// fields (the record's, `notes` dropped, sorted) written `"<key>": <value>`
/// and separated by a comma and a newline, between `{` and `}` lines, so
/// every field but the last ends in a comma and the last does not.
pub proof fn the_layout_is_a_json_object(fields: Seq<(Seq<char>, Seq<char>)>)
    ensures
        layout_fields(fields).len() == 0 ==> spec_mergeable(fields) == "{\n}\n"@,
        layout_fields(fields).len() > 0 ==> spec_mergeable(fields) == "{\n"@ + spec_join_sep(
            layout_fields(fields).map_values(|p: (Seq<char>, Seq<char>)| field_entry(p)),
            ",\n"@,
        ) + "\n}\n"@,
{
    lemma_layout_literals();
    let s = layout_fields(fields);
    if s.len() == 0 {
        assert(field_lines(s, 0) == Seq::<char>::empty());
        assert(spec_mergeable(fields) =~= "{\n}\n"@);
    } else {
        lemma_field_lines_joined(s, s.len() as int);
        assert(s.take(s.len() as int) =~= s);
        assert(spec_mergeable(fields) =~= "{\n"@ + spec_join_sep(
            s.map_values(|p: (Seq<char>, Seq<char>)| field_entry(p)),
            ",\n"@,
        ) + "\n}\n"@);
    }
}

} // verus!
