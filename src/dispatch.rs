//! What a finished build run amounts to: the exit status of the build
//! command, and the file in the workspace that the target's output pattern
//! selects.

use vstd::prelude::*;
use crate::paths::{chars_of, join, join_path};

verus! {

/// Whether `s` matches the glob `p`. A `*` stands for any run of characters
/// within one path component, a `?` for one such character; every other
/// character stands for itself.
pub open spec fn glob_matches(p: Seq<char>, s: Seq<char>) -> bool
    decreases p.len() + s.len(),
{
    if p.len() == 0 {
        s.len() == 0
    } else if p[0] == '*' {
        glob_matches(p.drop_first(), s) || (s.len() > 0 && s[0] != '/' && glob_matches(
            p,
            s.drop_first(),
        ))
    } else if s.len() == 0 {
        false
    } else if p[0] == '?' {
        s[0] != '/' && glob_matches(p.drop_first(), s.drop_first())
    } else {
        p[0] == s[0] && glob_matches(p.drop_first(), s.drop_first())
    }
}

/// Lexicographic order on strings, by code point.
pub open spec fn lex_le(a: Seq<char>, b: Seq<char>) -> bool
    decreases a.len(),
{
    if a.len() == 0 {
        true
    } else if b.len() == 0 {
        false
    } else if a[0] != b[0] {
        (a[0] as int) < (b[0] as int)
    } else {
        lex_le(a.drop_first(), b.drop_first())
    }
}

/// Any two strings are ordered one way or the other.
pub proof fn lemma_lex_total(a: Seq<char>, b: Seq<char>)
    ensures
        lex_le(a, b) || lex_le(b, a),
    decreases a.len(),
{
    if a.len() > 0 && b.len() > 0 {
        if a[0] == b[0] {
            lemma_lex_total(a.drop_first(), b.drop_first());
        } else {
            assert((a[0] as int) != (b[0] as int));
        }
    }
}

/// The order is transitive.
pub proof fn lemma_lex_trans(a: Seq<char>, b: Seq<char>, c: Seq<char>)
    requires
        lex_le(a, b),
        lex_le(b, c),
    ensures
        lex_le(a, c),
    decreases a.len(),
{
    if a.len() > 0 && b.len() > 0 && c.len() > 0 && a[0] == b[0] && b[0] == c[0] {
        lemma_lex_trans(a.drop_first(), b.drop_first(), c.drop_first());
    }
}

fn glob_match_from(p: &Vec<char>, pi: usize, s: &Vec<char>, si: usize) -> (r: bool)
    requires
        pi <= p@.len(),
        si <= s@.len(),
    ensures
        r == glob_matches(p@.subrange(pi as int, p@.len() as int), s@.subrange(si as int, s@.len() as int)),
    decreases (p@.len() - pi) + (s@.len() - si),
{
    let ghost ps = p@.subrange(pi as int, p@.len() as int);
    let ghost ss = s@.subrange(si as int, s@.len() as int);
    if pi == p.len() {
        return si == s.len();
    }
    assert(ps.drop_first() =~= p@.subrange(pi + 1, p@.len() as int));
    if si < s.len() {
        assert(ss.drop_first() =~= s@.subrange(si + 1, s@.len() as int));
    }
    let c = p[pi];
    if c == '*' {
        if glob_match_from(p, pi + 1, s, si) {
            return true;
        }
        if si < s.len() && s[si] != '/' {
            return glob_match_from(p, pi, s, si + 1);
        }
        return false;
    }
    if si == s.len() {
        return false;
    }
    if c == '?' {
        if s[si] == '/' {
            return false;
        }
        glob_match_from(p, pi + 1, s, si + 1)
    } else {
        if c != s[si] {
            return false;
        }
        glob_match_from(p, pi + 1, s, si + 1)
    }
}

/// Whether `path` matches the glob `pattern`.
pub fn matches_pattern(pattern: &str, path: &str) -> (r: bool)
    ensures
        r == glob_matches(pattern@, path@),
{
    let p = chars_of(pattern);
    let s = chars_of(path);
    assert(p@.subrange(0, p@.len() as int) =~= p@);
    assert(s@.subrange(0, s@.len() as int) =~= s@);
    glob_match_from(&p, 0, &s, 0)
}

fn lex_le_from(a: &Vec<char>, b: &Vec<char>, i: usize) -> (r: bool)
    requires
        i <= a@.len(),
        i <= b@.len(),
    ensures
        r == lex_le(a@.subrange(i as int, a@.len() as int), b@.subrange(i as int, b@.len() as int)),
    decreases a@.len() - i,
{
    let ghost sa = a@.subrange(i as int, a@.len() as int);
    let ghost sb = b@.subrange(i as int, b@.len() as int);
    if i == a.len() {
        return true;
    }
    if i == b.len() {
        return false;
    }
    if a[i] != b[i] {
        return a[i] < b[i];
    }
    assert(sa.drop_first() =~= a@.subrange(i + 1, a@.len() as int));
    assert(sb.drop_first() =~= b@.subrange(i + 1, b@.len() as int));
    lex_le_from(a, b, i + 1)
}

/// Whether `a` comes no later than `b` in lexicographic order.
pub fn lex_less_eq(a: &str, b: &str) -> (r: bool)
    ensures
        r == lex_le(a@, b@),
{
    let x = chars_of(a);
    let y = chars_of(b);
    assert(x@.subrange(0, x@.len() as int) =~= x@);
    assert(y@.subrange(0, y@.len() as int) =~= y@);
    lex_le_from(&x, &y, 0)
}

/// Whether index `k` of `files` is the artifact that `pattern` selects: it
/// matches, and no matching file comes before it lexicographically.
pub open spec fn is_selected(pattern: Seq<char>, files: Seq<Seq<char>>, k: int) -> bool {
    &&& 0 <= k < files.len()
    &&& glob_matches(pattern, files[k])
    &&& forall|j: int|
        0 <= j < files.len() && glob_matches(pattern, files[j]) ==> lex_le(files[k], files[j])
}

/// Whether some file matches `pattern`.
pub open spec fn any_match(pattern: Seq<char>, files: Seq<Seq<char>>) -> bool {
    exists|j: int| 0 <= j < files.len() && glob_matches(pattern, files[j])
}

/// The views of a list of strings.
pub open spec fn views(v: Seq<String>) -> Seq<Seq<char>> {
    v.map_values(|s: String| s@)
}

/// Picks the artifact among `files` (paths relative to the workspace): of
/// those that match `pattern`, the lexicographically first. `None` when none
/// matches.
pub fn select_artifact(pattern: &str, files: &Vec<String>) -> (r: Option<usize>)
    ensures
        r is None <==> !any_match(pattern@, views(files@)),
        r matches Some(k) ==> is_selected(pattern@, views(files@), k as int),
{
    let ghost fs = views(files@);
    let mut best: Option<usize> = None;
    let mut i: usize = 0;
    while i < files.len()
        invariant
            i <= files@.len(),
            fs == views(files@),
            best is None ==> forall|j: int| 0 <= j < i ==> !glob_matches(pattern@, fs[j]),
            best matches Some(k) ==> {
                &&& k < i
                &&& glob_matches(pattern@, fs[k as int])
                &&& forall|j: int|
                    0 <= j < i && glob_matches(pattern@, fs[j]) ==> lex_le(fs[k as int], fs[j])
            },
        decreases files@.len() - i,
    {
        let candidate = files[i].as_str();
        if matches_pattern(pattern, candidate) {
            match best {
                None => {
                    proof {
                        lemma_lex_total(fs[i as int], fs[i as int]);
                    }
                    best = Some(i);
                },
                Some(k) => {
                    if !lex_less_eq(files[k].as_str(), candidate) {
                        proof {
                            lemma_lex_total(fs[k as int], fs[i as int]);
                            assert forall|j: int|
                                0 <= j < i + 1 && glob_matches(pattern@, fs[j]) implies lex_le(
                                fs[i as int],
                                fs[j],
                            ) by {
                                if j < i {
                                    lemma_lex_trans(fs[i as int], fs[k as int], fs[j]);
                                } else {
                                    lemma_lex_total(fs[i as int], fs[i as int]);
                                }
                            }
                        }
                        best = Some(i);
                    }
                },
            }
        }
        i += 1;
    }
    best
}

/// How the build command ended.
#[derive(Debug, PartialEq, Eq)]
pub enum ProcessOutcome {
    /// The command could not be started (not found, or the spawn failed).
    SpawnFailed { error: String },
    /// The command ran to completion; `code` is its exit status (`None` when a
    /// signal ended it), and
    /// `output` what it wrote to its standard output and error streams.
    Exited { code: Option<i32>, output: String },
}

/// Why a build failed.
#[derive(Debug, PartialEq, Eq)]
pub enum BuildFailure {
    /// The build command could not be started.
    Spawn { error: String },
    /// The build command ended with exit status `code` other than zero, or
    /// by a signal (`None`), having printed `output`.
    Unsuccessful { code: Option<i32>, output: String },
    /// The build succeeded but no file of the workspace matches the target's
    /// output pattern.
    NoArtifact,
}

/// The result of one build request.
#[derive(Debug, PartialEq, Eq)]
pub enum BuildResult {
    /// The build produced `artifact`, a path inside the workspace.
    Success { artifact: String },
    Failure { failure: BuildFailure },
}

/// The decimal digit `d`.
pub open spec fn digit_char(d: nat) -> char {
    seq!['0', '1', '2', '3', '4', '5', '6', '7', '8', '9'][d as int]
}

/// The decimal numeral of `n`, without leading zeros.
pub open spec fn decimal_nat(n: nat) -> Seq<char>
    decreases n,
{
    if n < 10 {
        seq![digit_char(n)]
    } else {
        decimal_nat(n / 10).push(digit_char(n % 10))
    }
}

/// The decimal numeral of `n`, with a leading '-' when it is negative.
pub open spec fn decimal_int(n: int) -> Seq<char> {
    if n < 0 {
        seq!['-'] + decimal_nat((-n) as nat)
    } else {
        decimal_nat(n as nat)
    }
}

fn push_decimal(out: &mut String, n: u32)
    ensures
        final(out)@ == old(out)@ + decimal_nat(n as nat),
    decreases n,
{
    if n >= 10 {
        push_decimal(out, n / 10);
    }
    let d = (n % 10) as usize;
    let digits = "0123456789";
    proof {
        reveal_strlit("0123456789");
        assert(digits@ =~= seq!['0', '1', '2', '3', '4', '5', '6', '7', '8', '9']);
    }
    let s = digits.substring_char(d, d + 1);
    assert(s@ =~= seq![digit_char(d as nat)]);
    out.append(s);
    assert(out@ =~= old(out)@ + decimal_nat(n as nat));
}

/// The decimal numeral of `n`.
pub fn decimal_text(n: i32) -> (r: String)
    ensures
        r@ == decimal_int(n as int),
{
    let mut r = String::new();
    if n < 0 {
        r.append("-");
        proof {
            reveal_strlit("-");
        }
        push_decimal(&mut r, (-(n as i64)) as u32);
        assert(r@ =~= decimal_int(n as int));
    } else {
        push_decimal(&mut r, n as u32);
        assert(r@ =~= decimal_int(n as int));
    }
    r
}

/// The text that reports a failure.
pub open spec fn failure_message(f: BuildFailure) -> Seq<char> {
    match f {
        BuildFailure::Spawn { error } => "Failed to run build command: "@ + error@,
        BuildFailure::Unsuccessful { code, output } => match code {
            Some(c) => "Build command failed with exit code "@ + decimal_int(c as int) + ":\n"@
                + output@,
            None => "Build command was stopped by a signal:\n"@ + output@,
        },
        BuildFailure::NoArtifact => "No build output matches the output pattern"@,
    }
}

/// `a` followed by `b`.
pub fn concat_str(a: &str, b: &str) -> (r: String)
    ensures
        r@ == a@ + b@,
{
    let mut r = String::from_str(a);
    r.append(b);
    r
}

impl BuildFailure {
    /// A line for the person who asked for the build.
    pub fn message(&self) -> (r: String)
        ensures
            r@ == failure_message(*self),
    {
        match self {
            BuildFailure::Spawn { error } => concat_str("Failed to run build command: ", error.as_str()),
            BuildFailure::Unsuccessful { code, output } => match code {
                Some(c) => {
                    let mut r = String::from_str("Build command failed with exit code ");
                    let digits = decimal_text(*c);
                    r.append(digits.as_str());
                    r.append(":\n");
                    r.append(output.as_str());
                    r
                },
                None => concat_str("Build command was stopped by a signal:\n", output.as_str()),
            },
            BuildFailure::NoArtifact => String::from_str("No build output matches the output pattern"),
        }
    }
}

impl BuildResult {
    /// The artifact's path on success, the failure's message otherwise.
    pub fn message(&self) -> (r: String)
        ensures
            *self matches BuildResult::Success { artifact } ==> r@ == artifact@,
            *self matches BuildResult::Failure { failure } ==> r@ == failure_message(failure),
    {
        match self {
            BuildResult::Success { artifact } => artifact.clone(),
            BuildResult::Failure { failure } => failure.message(),
        }
    }
}

/// Whether `r` is the result of a build that ended in `outcome` in the
/// workspace `workspace` holding `files`, for a target whose output pattern is
/// `pattern`.
pub open spec fn is_dispatch_result(
    outcome: ProcessOutcome,
    workspace: Seq<char>,
    pattern: Seq<char>,
    files: Seq<Seq<char>>,
    r: BuildResult,
) -> bool {
    match outcome {
        ProcessOutcome::SpawnFailed { error } => r == (BuildResult::Failure {
            failure: BuildFailure::Spawn { error },
        }),
        ProcessOutcome::Exited { code, output } => {
            if code != Some(0i32) {
                r == (BuildResult::Failure { failure: BuildFailure::Unsuccessful { code, output } })
            } else if !any_match(pattern, files) {
                r == (BuildResult::Failure { failure: BuildFailure::NoArtifact })
            } else {
                match r {
                    BuildResult::Success { artifact } => exists|k: int|
                        is_selected(pattern, files, k) && artifact@ == join_path(
                            workspace,
                            #[trigger] files[k],
                        ),
                    BuildResult::Failure { .. } => false,
                }
            }
        },
    }
}

/// Turns the end of a build command run in `workspace` into the request's
/// result. `files` lists the workspace's files relative to it; on a zero exit
/// status the artifact is the lexicographically first of those that match
/// `output_pattern`, and its absence is a failure.
pub fn dispatch_result(
    outcome: ProcessOutcome,
    workspace: &str,
    output_pattern: &str,
    files: &Vec<String>,
) -> (r: BuildResult)
    ensures
        is_dispatch_result(outcome, workspace@, output_pattern@, views(files@), r),
{
    match outcome {
        ProcessOutcome::SpawnFailed { error } => BuildResult::Failure {
            failure: BuildFailure::Spawn { error },
        },
        ProcessOutcome::Exited { code, output } => {
            let success = match code {
                Some(c) => c == 0,
                None => false,
            };
            if !success {
                return BuildResult::Failure { failure: BuildFailure::Unsuccessful { code, output } };
            }
            match select_artifact(output_pattern, files) {
                None => BuildResult::Failure { failure: BuildFailure::NoArtifact },
                Some(k) => {
                    let artifact = join(workspace, files[k].as_str());
                    assert(views(files@)[k as int] == files@[k as int]@);
                    BuildResult::Success { artifact }
                },
            }
        },
    }
}

} // verus!
