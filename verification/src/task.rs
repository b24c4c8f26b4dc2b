//! The task schema: the one node type.
//!
//! A task is a `tasks/<id>.md` file: a TOML frontmatter block fenced by `+++`,
//! then a free-form markdown body. The id is the filename, so it is not a
//! field, and there is no stored status: status is a derived view
//! ([`Task::status`]). Unknown frontmatter keys round-trip untouched.
//! Decoding the TOML itself is the caller's; this module frames the file and
//! holds every rule read from the decoded fields.

use vstd::prelude::*;
use crate::text::{
    chars_of, concat, ends_with, owned, slice_chars, spec_ends_with, spec_split_once_str,
    spec_strip_prefix, spec_strip_suffix, split_once_str, starts_with, skip_chars, str_eq, string_of,
    spec_contains, spec_matches_at, first_match,
};

verus! {

/// The ops of `bl`. A blocker edge names the op it gates.
#[derive(PartialEq, Eq, Structural, Clone, Copy)]
pub enum Verb {
    Create,
    Claim,
    Unclaim,
    Update,
    Close,
    Import,
    Show,
    List,
    Prime,
    Sync,
    Install,
    Conf,
}

impl Verb {
    pub open spec fn spec_token(self) -> Seq<char> {
        match self {
            Verb::Create => "create"@,
            Verb::Claim => "claim"@,
            Verb::Unclaim => "unclaim"@,
            Verb::Update => "update"@,
            Verb::Close => "close"@,
            Verb::Import => "import"@,
            Verb::Show => "show"@,
            Verb::List => "list"@,
            Verb::Prime => "prime"@,
            Verb::Sync => "sync"@,
            Verb::Install => "install"@,
            Verb::Conf => "conf"@,
        }
    }

    /// The verb's command-line word.
    pub fn token(self) -> (r: &'static str)
        ensures
            r@ == self.spec_token(),
    {
        match self {
            Verb::Create => "create",
            Verb::Claim => "claim",
            Verb::Unclaim => "unclaim",
            Verb::Update => "update",
            Verb::Close => "close",
            Verb::Import => "import",
            Verb::Show => "show",
            Verb::List => "list",
            Verb::Prime => "prime",
            Verb::Sync => "sync",
            Verb::Install => "install",
            Verb::Conf => "conf",
        }
    }
}

/// Which of the blocked task's own ops an edge gates: any op.
pub type On = Verb;

/// A blocker edge: the blocked task can't make op `on` until task `id` resolves
/// (is closed or dropped).
pub struct Blocker {
    pub id: String,
    pub on: On,
}

/// The derived status: computed on read, never stored. Closed and dropped are
/// not states (the file is gone).
#[derive(PartialEq, Eq, Structural, Clone, Copy)]
pub enum Status {
    Claimed,
    Blocked,
    Ready,
}

impl Status {
    pub open spec fn spec_word(self) -> Seq<char> {
        match self {
            Status::Claimed => "claimed"@,
            Status::Blocked => "blocked"@,
            Status::Ready => "ready"@,
        }
    }

    /// The status token shared by plain output and `--json`.
    pub fn word(self) -> (r: &'static str)
        ensures
            r@ == self.spec_word(),
    {
        match self {
            Status::Claimed => "claimed",
            Status::Blocked => "blocked",
            Status::Ready => "ready",
        }
    }

    /// The rung a status word names, derived from [`Status::word`] over the
    /// ladder so the filter token can never drift from the rendered badge;
    /// `None` for any other word (`closed` included).
    pub fn from_word(word: &str) -> (r: Option<Status>)
        ensures
            match r {
                Some(s) => s.spec_word() == word@,
                None => forall|s: Status| #[trigger] s.spec_word() != word@,
            },
    {
        let all = [Status::Claimed, Status::Blocked, Status::Ready];
        let mut i: usize = 0;
        while i < 3
            invariant
                i <= 3,
                all@ == seq![Status::Claimed, Status::Blocked, Status::Ready],
                forall|j: int| 0 <= j < i ==> (#[trigger] all@[j]).spec_word() != word@,
            decreases 3 - i,
        {
            if str_eq(all[i].word(), word) {
                return Some(all[i]);
            }
            i += 1;
        }
        proof {
            assert forall|s: Status| #[trigger] s.spec_word() != word@ by {
                match s {
                    Status::Claimed => assert(all@[0] == s),
                    Status::Blocked => assert(all@[1] == s),
                    Status::Ready => assert(all@[2] == s),
                }
            }
        }
        None
    }
}

/// A task's frontmatter, plus its markdown body. Unknown frontmatter keys are
/// kept in `extra` as `(key, TOML text of the value)`.
pub struct Task {
    pub title: String,
    /// Unix seconds.
    pub created: i64,
    pub updated: i64,
    /// Occupancy and its sole source of truth: present means claimed.
    pub claimant: Option<String>,
    /// Containment pointer only; never read for enforcement.
    pub parent: Option<String>,
    /// The one ordering input for `bl list`: lower is higher, absent last.
    pub priority: Option<i64>,
    pub blockers: Vec<Blocker>,
    pub tags: Vec<String>,
    pub extra: Vec<(String, String)>,
    pub body: String,
}

/// Why a `tasks/<id>.md` file could not be parsed.
pub enum ParseError {
    MissingFrontmatter,
    UnterminatedFrontmatter,
    /// The frontmatter is not valid TOML for the schema (the decoder's
    /// message).
    Toml(String),
    /// A reserved key stored as frontmatter: its fact lives outside the
    /// frontmatter, so a stored line would be a silently dropped shadow.
    ReservedKey(&'static str),
}

/// The frontmatter and body of a task file: after an opening `+++` line, the
/// frontmatter runs to the first `\n+++\n` and the body follows it; a file
/// that ends in `\n+++` instead has an empty body.
pub open spec fn spec_split_frontmatter(content: Seq<char>) -> Option<Option<(Seq<char>, Seq<char>)>> {
    match spec_strip_prefix(content, "+++\n"@) {
        None => None,
        Some(rest) => match spec_split_once_str(rest, "\n+++\n"@) {
            Some((fm, body)) => Some(Some((fm, body))),
            None => match spec_strip_suffix(rest, "\n+++"@) {
                Some(fm) => Some(Some((fm, Seq::empty()))),
                None => Some(None),
            },
        },
    }
}

/// Frame a task file into its TOML frontmatter and markdown body.
pub fn split_frontmatter(content: &str) -> (r: Result<(String, String), ParseError>)
    ensures
        r matches Ok((fm, body)) ==> spec_split_frontmatter(content@) == Some(Some((fm@, body@))),
        r matches Err(ParseError::MissingFrontmatter) ==> spec_split_frontmatter(content@) is None,
        r matches Err(ParseError::UnterminatedFrontmatter) ==> spec_split_frontmatter(content@) == Some(
            None::<(Seq<char>, Seq<char>)>,
        ),
        r is Ok || r matches Err(ParseError::MissingFrontmatter) || r matches Err(ParseError::UnterminatedFrontmatter),
{
    let cs = chars_of(content);
    let open = chars_of("+++\n");
    if !starts_with(&cs, &open) {
        return Err(ParseError::MissingFrontmatter);
    }
    let rest = skip_chars(&cs, open.len());
    match split_once_str(&rest, &chars_of("\n+++\n")) {
        Some((fm, body)) => Ok((string_of(&fm), string_of(&body))),
        None => {
            let close = chars_of("\n+++");
            if ends_with(&rest, &close) {
                let fm = slice_chars(&rest, 0, rest.len() - close.len());
                proof {
                    assert(fm@ =~= rest@.take(rest@.len() - close@.len()));
                }
                Ok((string_of(&fm), String::new()))
            } else {
                Err(ParseError::UnterminatedFrontmatter)
            }
        },
    }
}

/// The frontmatter keys no task file may carry: the id is the filename and
/// the body follows the closing fence.
pub open spec fn shadow_keys() -> Seq<Seq<char>> {
    seq!["id"@, "body"@]
}

/// The first reserved key present among the decoded unknown keys, in
/// [`shadow_keys`] order.
pub open spec fn spec_reserved_key(keys: Seq<Seq<char>>) -> Option<Seq<char>> {
    if keys.contains("id"@) {
        Some("id"@)
    } else if keys.contains("body"@) {
        Some("body"@)
    } else {
        None
    }
}

pub open spec fn extra_keys(extra: Seq<(String, String)>) -> Seq<Seq<char>> {
    extra.map_values(|p: (String, String)| p.0@)
}

fn has_key(extra: &Vec<(String, String)>, key: &str) -> (r: bool)
    ensures
        r == extra_keys(extra@).contains(key@),
{
    let mut i: usize = 0;
    while i < extra.len()
        invariant
            i <= extra@.len(),
            forall|j: int| 0 <= j < i ==> extra@[j].0@ != key@,
        decreases extra@.len() - i,
    {
        if str_eq(extra[i].0.as_str(), key) {
            assert(extra_keys(extra@)[i as int] == key@);
            return true;
        }
        i += 1;
    }
    proof {
        if extra_keys(extra@).contains(key@) {
            let k = choose|k: int| 0 <= k < extra_keys(extra@).len() && extra_keys(extra@)[k] == key@;
            assert(extra@[k].0@ == key@);
        }
    }
    false
}

impl Task {
    /// Refuse a task whose decoded unknown keys carry a reserved key.
    pub fn check_reserved(&self) -> (r: Result<(), ParseError>)
        ensures
            match spec_reserved_key(extra_keys(self.extra@)) {
                Some(k) => r matches Err(ParseError::ReservedKey(s)) && s@ == k,
                None => r is Ok,
            },
    {
        if has_key(&self.extra, "id") {
            Err(ParseError::ReservedKey("id"))
        } else if has_key(&self.extra, "body") {
            Err(ParseError::ReservedKey("body"))
        } else {
            Ok(())
        }
    }

    /// Is some `on`-blocker of the task, by the resolution oracle, still
    /// unresolved?
    pub open spec fn spec_any_unresolved<F: Fn(&str) -> bool>(&self, on: Verb, is_resolved: F) -> bool {
        exists|i: int, s: &str|
            0 <= i < self.blockers@.len() && self.blockers@[i].on == on && s@ == self.blockers@[i].id@
                && #[trigger] call_ensures(is_resolved, (s,), false) && #[trigger] self.blockers@[i].id@ == s@
    }

    /// Every `on`-blocker of the task is, by the oracle, resolved.
    pub open spec fn spec_all_resolved<F: Fn(&str) -> bool>(&self, on: Verb, is_resolved: F) -> bool {
        forall|i: int|
            0 <= i < self.blockers@.len() && #[trigger] self.blockers@[i].on == on ==> exists|s: &str|
                s@ == self.blockers@[i].id@ && #[trigger] call_ensures(is_resolved, (s,), true)
    }

    fn any_unresolved<F: Fn(&str) -> bool>(&self, on: Verb, is_resolved: &F) -> (r: bool)
        requires
            forall|s: &str| #[trigger] is_resolved.requires((s,)),
        ensures
            r ==> self.spec_any_unresolved(on, *is_resolved),
            !r ==> self.spec_all_resolved(on, *is_resolved),
    {
        let mut i: usize = 0;
        while i < self.blockers.len()
            invariant
                i <= self.blockers@.len(),
                forall|s: &str| #[trigger] is_resolved.requires((s,)),
                forall|j: int|
                    0 <= j < i && #[trigger] self.blockers@[j].on == on ==> exists|s: &str|
                        s@ == self.blockers@[j].id@ && #[trigger] call_ensures(*is_resolved, (s,), true),
            decreases self.blockers@.len() - i,
        {
            let b = &self.blockers[i];
            if b.on == on {
                let id = b.id.as_str();
                let done = is_resolved(id);
                if !done {
                    assert(self.blockers@[i as int].id@ == id@);
                    return true;
                }
                assert(call_ensures(*is_resolved, (id,), true));
            }
            i += 1;
        }
        false
    }

    /// The status ladder, computed on read. `is_resolved(id)` answers whether
    /// a blocker's task has resolved (closed or dropped); the caller supplies
    /// it. A claimant wins outright, else any unresolved claim-blocker means
    /// blocked, else ready. Close-blockers never show.
    pub fn status<F: Fn(&str) -> bool>(&self, is_resolved: &F) -> (r: Status)
        requires
            forall|s: &str| #[trigger] is_resolved.requires((s,)),
        ensures
            self.claimant is Some ==> r == Status::Claimed,
            self.claimant is None ==> (r == Status::Blocked || r == Status::Ready),
            r == Status::Blocked ==> self.spec_any_unresolved(Verb::Claim, *is_resolved),
            self.claimant is None && r == Status::Ready ==> self.spec_all_resolved(Verb::Claim, *is_resolved),
    {
        if self.claimant.is_some() {
            Status::Claimed
        } else if self.any_unresolved(Verb::Claim, is_resolved) {
            Status::Blocked
        } else {
            Status::Ready
        }
    }

    /// Claimable now: unclaimed with every claim-blocker resolved.
    pub fn ready<F: Fn(&str) -> bool>(&self, is_resolved: &F) -> (r: bool)
        requires
            forall|s: &str| #[trigger] is_resolved.requires((s,)),
        ensures
            r ==> self.claimant is None && self.spec_all_resolved(Verb::Claim, *is_resolved),
            !r ==> self.claimant is Some || self.spec_any_unresolved(Verb::Claim, *is_resolved),
    {
        match self.status(is_resolved) {
            Status::Ready => true,
            _ => false,
        }
    }

    /// Every close-blocker (gate) resolved. Independent of the claim ladder.
    pub fn closeable<F: Fn(&str) -> bool>(&self, is_resolved: &F) -> (r: bool)
        requires
            forall|s: &str| #[trigger] is_resolved.requires((s,)),
        ensures
            r ==> self.spec_all_resolved(Verb::Close, *is_resolved),
            !r ==> self.spec_any_unresolved(Verb::Close, *is_resolved),
    {
        !self.any_unresolved(Verb::Close, is_resolved)
    }
}

} // verus!

verus! {

/// A task file: the opening fence, the TOML frontmatter (which ends in a
/// newline), the closing fence, then the body.
pub open spec fn spec_markdown(frontmatter: Seq<char>, body: Seq<char>) -> Seq<char> {
    "+++\n"@ + frontmatter + "+++\n"@ + body
}

impl Task {
    /// Render back to task-file form, given the TOML text of the task's
    /// frontmatter fields (the encoder's output, ending in a newline).
    pub fn to_markdown(&self, frontmatter: &str) -> (r: String)
        ensures
            r@ == spec_markdown(frontmatter@, self.body@),
    {
        let mut r = concat("+++\n", frontmatter);
        r.append("+++\n");
        r.append(self.body.as_str());
        r
    }

    /// The rest of parsing once the frontmatter has been decoded: a decoding
    /// failure is a TOML error carrying the decoder's message; a reserved key
    /// among the unknown ones is refused; otherwise the task, with `body` as
    /// its body.
    pub fn from_frontmatter(decoded: Result<Task, String>, body: String) -> (r: Result<Task, ParseError>)
        ensures
            match decoded {
                Err(m) => r matches Err(ParseError::Toml(x)) && x@ == m@,
                Ok(t) => match spec_reserved_key(extra_keys(t.extra@)) {
                    Some(k) => r matches Err(ParseError::ReservedKey(s)) && s@ == k,
                    None => r matches Ok(t2) && t2 == (Task { body, ..t }),
                },
            },
    {
        match decoded {
            Err(m) => Err(ParseError::Toml(m)),
            Ok(t) => match t.check_reserved() {
                Err(e) => Err(e),
                Ok(()) => {
                    let mut t = t;
                    t.body = body;
                    Ok(t)
                },
            },
        }
    }
}

impl ParseError {
    /// What went wrong, in words.
    pub fn message(&self) -> (r: String)
        ensures
            r@ == match self {
                ParseError::MissingFrontmatter => "missing opening `+++` frontmatter fence"@,
                ParseError::UnterminatedFrontmatter => "unterminated frontmatter: no closing `+++` fence"@,
                ParseError::Toml(e) => "invalid frontmatter: "@ + e@,
                ParseError::ReservedKey(k) => "reserved frontmatter key '"@ + k@
                    + "' — the id is the filename and the body follows the fence; neither is stored frontmatter"@,
            },
    {
        match self {
            ParseError::MissingFrontmatter => owned("missing opening `+++` frontmatter fence"),
            ParseError::UnterminatedFrontmatter => owned("unterminated frontmatter: no closing `+++` fence"),
            ParseError::Toml(e) => concat("invalid frontmatter: ", e.as_str()),
            ParseError::ReservedKey(k) => {
                let mut r = concat("reserved frontmatter key '", k);
                r.append("' — the id is the filename and the body follows the fence; neither is stored frontmatter");
                r
            },
        }
    }
}

/// A rendered task file frames back into what was rendered: the frontmatter
/// (without the newline that ends it) and the body exactly, whenever the
/// frontmatter ends in a newline and holds no fence line of its own.
#[verifier::rlimit(60)]
pub proof fn rendered_file_frames_back(frontmatter: Seq<char>, body: Seq<char>)
    requires
        frontmatter.len() > 0,
        frontmatter.last() == '\n',
        !spec_contains(frontmatter, "\n+++\n"@),
    ensures
        spec_split_frontmatter(spec_markdown(frontmatter, body)) == Some(
            Some((frontmatter.drop_last(), body)),
        ),
{
    let rest = frontmatter + "+++\n"@ + body;
    lemma_fence_chars();
    lemma_strip_open(frontmatter, body);
    lemma_fence_found(frontmatter, body);
    let i = frontmatter.len() - 1;
    assert(spec_split_once_str(rest, "\n+++\n"@) == Some((rest.take(i), rest.skip(i + 5))));
    lemma_frontmatter_parts(frontmatter, body);
}

proof fn lemma_strip_open(frontmatter: Seq<char>, body: Seq<char>)
    ensures
        spec_strip_prefix(spec_markdown(frontmatter, body), "+++\n"@) == Some(frontmatter + "+++\n"@ + body),
{
    reveal_strlit("+++\n");
    let md = spec_markdown(frontmatter, body);
    assert(md.take(4) =~= "+++\n"@);
    assert(md.skip(4) =~= frontmatter + "+++\n"@ + body);
}

proof fn lemma_frontmatter_parts(frontmatter: Seq<char>, body: Seq<char>)
    requires
        frontmatter.len() > 0,
    ensures
        (frontmatter + "+++\n"@ + body).take(frontmatter.len() - 1) == frontmatter.drop_last(),
        (frontmatter + "+++\n"@ + body).skip(frontmatter.len() - 1 + 5) == body,
{
    reveal_strlit("+++\n");
    let rest = frontmatter + "+++\n"@ + body;
    assert(rest.take(frontmatter.len() - 1) =~= frontmatter.drop_last());
    assert(rest.skip(frontmatter.len() - 1 + 5) =~= body);
}

proof fn lemma_fence_chars()
    ensures
        "\n+++\n"@ == seq!['\n', '+', '+', '+', '\n'],
        "+++\n"@ == seq!['+', '+', '+', '\n'],
{
    reveal_strlit("\n+++\n");
    reveal_strlit("+++\n");
    assert("\n+++\n"@ =~= seq!['\n', '+', '+', '+', '\n']);
    assert("+++\n"@ =~= seq!['+', '+', '+', '\n']);
}

proof fn lemma_no_fence_inside(frontmatter: Seq<char>, rest: Seq<char>, j: int)
    requires
        rest.len() >= frontmatter.len(),
        forall|k: int| 0 <= k < frontmatter.len() ==> rest[k] == frontmatter[k],
        0 <= j,
        j + 5 <= frontmatter.len(),
        !spec_contains(frontmatter, seq!['\n', '+', '+', '+', '\n']),
    ensures
        rest.subrange(j, j + 5) != seq!['\n', '+', '+', '+', '\n'],
{
    let fence = seq!['\n', '+', '+', '+', '\n'];
    if rest.subrange(j, j + 5) == fence {
        assert(frontmatter.subrange(j, j + 5) =~= rest.subrange(j, j + 5));
        assert(spec_contains(frontmatter, fence));
    }
}

proof fn lemma_no_fence_straddling(rest: Seq<char>, i: int, j: int)
    requires
        0 <= i < rest.len(),
        rest[i] == '\n',
        i - 3 <= j < i,
        0 <= j,
        j + 5 <= rest.len(),
    ensures
        rest.subrange(j, j + 5) != seq!['\n', '+', '+', '+', '\n'],
{
    let fence = seq!['\n', '+', '+', '+', '\n'];
    let k = i - j;
    assert(rest.subrange(j, j + 5)[k] == rest[i]);
    assert(fence[k] == '+');
}

proof fn lemma_fence_found(frontmatter: Seq<char>, body: Seq<char>)
    requires
        frontmatter.len() > 0,
        frontmatter.last() == '\n',
        !spec_contains(frontmatter, "\n+++\n"@),
    ensures
        first_match(frontmatter + "+++\n"@ + body, "\n+++\n"@) == Some(frontmatter.len() - 1),
{
    lemma_fence_chars();
    let fence = seq!['\n', '+', '+', '+', '\n'];
    let rest = frontmatter + seq!['+', '+', '+', '\n'] + body;
    let n = frontmatter.len() as int;
    let i = n - 1;
    assert(rest[i] == '\n');
    assert(spec_matches_at(rest, i, fence)) by {
        assert(rest.subrange(i, i + 5) =~= fence);
    }
    assert forall|j: int| 0 <= j < i implies !spec_matches_at(rest, j, fence) by {
        if j + 5 <= rest.len() {
            if j + 5 <= n {
                lemma_no_fence_inside(frontmatter, rest, j);
            } else {
                lemma_no_fence_straddling(rest, i, j);
            }
        }
    }
    lemma_first_match_is(rest, fence, i);
}

proof fn lemma_first_match_is(s: Seq<char>, p: Seq<char>, i: int)
    requires
        spec_matches_at(s, i, p),
        forall|j: int| 0 <= j < i ==> !spec_matches_at(s, j, p),
    ensures
        first_match(s, p) == Some(i),
{
    let k = choose|k: int| spec_matches_at(s, k, p) && forall|j: int| 0 <= j < k ==> !spec_matches_at(s, j, p);
    if k < i {
    } else if k > i {
        assert(spec_matches_at(s, i, p));
    }
}

} // verus!
