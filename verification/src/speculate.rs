//! The verdict cache: tree-keyed gate memoization.
//!
//! The pre-commit gate's verdict is a pure function of two content-addressed
//! inputs: the tree it tests and which gate tests it (the toolchain plus the
//! gate scripts). So a verdict is one file per `(tree, gate)` pair, and "the
//! stated build matches the merge" is inherent in the key. Reading, writing
//! and hashing are the caller's I/O; this module holds the key, this gate's
//! inputs, and what a record licenses.

use vstd::prelude::*;
use crate::path::{join, spec_join};
use crate::gitout::{ok_stdout, spec_ok_stdout, GitOutput};
use crate::text::{concat, owned};

verus! {

/// One recorded gate outcome for an exact `(tree, gate)` pair: whether the
/// gate passed, and who ran it (the trust root).
pub struct Verdict {
    pub pass: bool,
    pub builder: String,
}

/// The files whose content, with the toolchain string, identifies a gate.
pub open spec fn spec_gate_files() -> Seq<Seq<char>> {
    seq!["scripts/pre-commit"@, "scripts/check-line-lengths.sh"@, "scripts/check-coverage.sh"@, "Makefile"@]
}

/// Gate files, in the order their bodies enter the fingerprint.
pub fn gate_files() -> (r: Vec<&'static str>)
    ensures
        r@.map_values(|s: &'static str| s@) == spec_gate_files(),
{
    let r = vec!["scripts/pre-commit", "scripts/check-line-lengths.sh", "scripts/check-coverage.sh", "Makefile"];
    assert(r@.map_values(|s: &'static str| s@) =~= spec_gate_files());
    r
}

/// The bytes hashed to identify a gate: the toolchain string, then for each
/// gate file a NUL byte followed by its body.
pub open spec fn spec_gate_blob(toolchain: Seq<u8>, bodies: Seq<Seq<u8>>) -> Seq<u8>
    decreases bodies.len(),
{
    if bodies.len() == 0 {
        toolchain
    } else {
        spec_gate_blob(toolchain, bodies.drop_last()) + seq![0u8] + bodies.last()
    }
}

/// Assemble a gate blob from the toolchain's bytes and gate files'
/// bodies (read by the caller in [`gate_files`] order).
pub fn gate_blob(toolchain: &[u8], bodies: &[Vec<u8>]) -> (r: Vec<u8>)
    ensures
        r@ == spec_gate_blob(toolchain@, bodies@.map_values(|b: Vec<u8>| b@)),
{
    let mut blob: Vec<u8> = Vec::new();
    let mut k: usize = 0;
    while k < toolchain.len()
        invariant
            k <= toolchain@.len(),
            blob@ == toolchain@.take(k as int),
        decreases toolchain@.len() - k,
    {
        blob.push(toolchain[k]);
        k += 1;
        assert(blob@ =~= toolchain@.take(k as int));
    }
    assert(toolchain@.take(toolchain@.len() as int) =~= toolchain@);
    let ghost bv = bodies@.map_values(|b: Vec<u8>| b@);
    let mut i: usize = 0;
    while i < bodies.len()
        invariant
            i <= bodies@.len(),
            bv == bodies@.map_values(|b: Vec<u8>| b@),
            blob@ == spec_gate_blob(toolchain@, bv.take(i as int)),
        decreases bodies@.len() - i,
    {
        proof {
            assert(bv.take(i + 1).drop_last() =~= bv.take(i as int));
            assert(bv.take(i + 1).last() == bodies@[i as int]@);
        }
        let ghost before = blob@;
        blob.push(0u8);
        let body = &bodies[i];
        let mut j: usize = 0;
        while j < body.len()
            invariant
                j <= body@.len(),
                blob@ == before + seq![0u8] + body@.take(j as int),
            decreases body@.len() - j,
        {
            blob.push(body[j]);
            j += 1;
            assert(blob@ =~= before + seq![0u8] + body@.take(j as int));
        }
        assert(body@.take(body@.len() as int) =~= body@);
        i += 1;
    }
    assert(bv.take(bodies@.len() as int) =~= bv);
    blob
}

/// `<territory>/verdicts/<tree>-<gate>.toml`: one file per verdict, the id is
/// the path.
pub open spec fn spec_verdict_path(territory: Seq<char>, tree: Seq<char>, gate: Seq<char>) -> Seq<char> {
    spec_join(spec_join(territory, "verdicts"@), tree + "-"@ + gate + ".toml"@)
}

pub fn verdict_path(territory: &str, tree: &str, gate: &str) -> (r: String)
    ensures
        r@ == spec_verdict_path(territory@, tree@, gate@),
{
    let dir = join(territory, "verdicts");
    let mut name = concat(tree, "-");
    name.append(gate);
    name.append(".toml");
    join(dir.as_str(), name.as_str())
}

/// The hook's skip condition, given the verdict recorded for the current
/// `(tree, gate)`: only a recorded PASS licenses skipping the run; a recorded
/// failure, like absence, is a miss.
pub fn check(recorded: &Option<Verdict>) -> (r: bool)
    ensures
        r == (recorded matches Some(v) && v.pass),
{
    match recorded {
        Some(v) => v.pass,
        None => false,
    }
}

/// The record a completed gate run writes for the current `(tree, gate)`.
pub fn record(pass: bool, builder: &str) -> (v: Verdict)
    ensures
        v.pass == pass,
        v.builder@ == builder@,
{
    Verdict { pass, builder: owned(builder) }
}

/// Tree a gate tests, from the two `git` runs through a throwaway
/// index: `added` (`add -A`) and `written` (`write-tree`). The first failure
/// speaks for itself; otherwise the written tree's id.
pub fn worktree_oid(added: &GitOutput, written: &GitOutput) -> (r: Result<String, String>)
    ensures
        match spec_ok_stdout(*added, "git add -A"@) {
            Err(e) => r matches Err(x) && x@ == e,
            Ok(_) => match spec_ok_stdout(*written, "git write-tree"@) {
                Err(e) => r matches Err(x) && x@ == e,
                Ok(s) => r matches Ok(x) && x@ == s,
            },
        },
{
    match ok_stdout(added, "git add -A") {
        Err(e) => Err(e),
        Ok(_) => ok_stdout(written, "git write-tree"),
    }
}

/// A gate's fingerprint, from `git hash-object` over its blob.
pub fn gate_fingerprint(hashed: &GitOutput) -> (r: Result<String, String>)
    ensures
        match spec_ok_stdout(*hashed, "git hash-object"@) {
            Err(e) => r matches Err(x) && x@ == e,
            Ok(s) => r matches Ok(x) && x@ == s,
        },
{
    ok_stdout(hashed, "git hash-object")
}

} // verus!
