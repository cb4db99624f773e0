//! The build configuration: its data, its schema version policy, where it
//! lives, and the file written on first launch.
//!
//! Reading and writing the file, and turning its text into a [`Config`], are
//! the caller's work; the decisions are made here.

use vstd::prelude::*;
use crate::paths::{join, join_path};

verus! {

/// Major part of the configuration schema version this program reads.
pub const CONFIG_MAJOR: u64 = 1;

/// Minor part of the configuration schema version this program reads.
pub const CONFIG_MINOR: u64 = 0;

/// The schema version this program writes into a new configuration file.
pub const CONFIG_VERSION_TEXT: &'static str = "1.0.0";

/// One build target: a shell command run in the workspace, and a glob,
/// relative to the workspace, that locates the artifact it produces.
#[derive(Debug, PartialEq, Eq)]
pub struct BuildConfig {
    pub build: String,
    pub output: String,
}

/// A loaded configuration: its schema version text and its targets by name.
/// The targets are held as a list whose names are unique; only
/// [`Config::from_sections`] builds one, and it checks that.
#[derive(Debug, PartialEq, Eq)]
pub struct Config {
    version: String,
    sections: Vec<(String, BuildConfig)>,
}

/// The names of the targets, in order.
pub open spec fn section_names(sections: Seq<(String, BuildConfig)>) -> Seq<Seq<char>> {
    sections.map_values(|e: (String, BuildConfig)| e.0@)
}

/// Whether no name occurs twice.
pub open spec fn names_unique(names: Seq<Seq<char>>) -> bool {
    forall|i: int, j: int| 0 <= i < j < names.len() ==> names[i] != names[j]
}

impl Config {
    /// The schema version text.
    pub closed spec fn version_view(&self) -> Seq<char> {
        self.version@
    }

    /// The targets, in order.
    pub closed spec fn sections_view(&self) -> Seq<(String, BuildConfig)> {
        self.sections@
    }

    /// Target names are unique: each names one route.
    pub open spec fn wf(&self) -> bool {
        names_unique(section_names(self.sections_view()))
    }

    /// The schema version text.
    pub fn version(&self) -> (r: &String)
        ensures
            r@ == self.version_view(),
    {
        &self.version
    }

    /// The targets, in order.
    pub fn sections(&self) -> (r: &Vec<(String, BuildConfig)>)
        ensures
            r@ == self.sections_view(),
    {
        &self.sections
    }

    /// A configuration with the given targets; `None` when two of them share
    /// a name.
    pub fn from_sections(version: String, sections: Vec<(String, BuildConfig)>) -> (r: Option<
        Config,
    >)
        ensures
            names_unique(section_names(sections@)) ==> r is Some && r->Some_0.wf()
                && r->Some_0.version_view() == version@ && r->Some_0.sections_view() == sections@,
            !names_unique(section_names(sections@)) ==> r is None,
    {
        let n = sections.len();
        let mut i: usize = 0;
        while i < n
            invariant
                n == sections@.len(),
                i <= n,
                forall|a: int, b: int|
                    0 <= a < b < n && a < i ==> #[trigger] sections@[a].0@ != #[trigger] sections@[b].0@,
            decreases n - i,
        {
            let mut j: usize = i + 1;
            while j < n
                invariant
                    n == sections@.len(),
                    i < n,
                    i < j <= n,
                    forall|a: int, b: int|
                        0 <= a < b < n && a < i ==> #[trigger] sections@[a].0@ != #[trigger] sections@[b].0@,
                    forall|b: int| i < b < j ==> sections@[i as int].0@ != #[trigger] sections@[b].0@,
                decreases n - j,
            {
                if sections[i].0 == sections[j].0 {
                    proof {
                        let names = section_names(sections@);
                        assert(names[i as int] == names[j as int]);
                    }
                    return None;
                }
                j += 1;
            }
            i += 1;
        }
        proof {
            let names = section_names(sections@);
            assert forall|a: int, b: int| 0 <= a < b < names.len() implies names[a] != names[b] by {
                assert(sections@[a].0@ != sections@[b].0@);
            }
        }
        Some(Config { version, sections })
    }
}

/// The (major, minor, patch) that `semver::Version::parse` reads from `s`,
/// or `None` where it refuses `s`.
pub uninterp spec fn semver_parse(s: Seq<char>) -> Option<(u64, u64, u64)>;

/// Relies on `semver::Version::parse`, which reads a SemVer 2.0 version, for
/// the major, minor and patch numbers of `s`, or an error.
#[verifier::external_body]
fn parse_version(s: &str) -> (r: Option<(u64, u64, u64)>)
    ensures
        r == semver_parse(s@),
{
    match semver::Version::parse(s) {
        Ok(v) => Some((v.major, v.minor, v.patch)),
        Err(_) => None,
    }
}

/// How a configuration's schema version stands against this program's.
#[derive(Debug, Clone, Copy, PartialEq, Eq, Structural)]
pub enum VersionCheck {
    /// Major and minor agree: the configuration is used as it is.
    Current,
    /// Major or minor differ: the operator is asked whether to replace the
    /// configuration with the default one.
    Mismatch,
    /// The version text is no valid version.
    Invalid,
}

/// The verdict on a parsed version; the patch number plays no part.
pub open spec fn version_check_spec(parsed: Option<(u64, u64, u64)>) -> VersionCheck {
    match parsed {
        None => VersionCheck::Invalid,
        Some((major, minor, _)) => if major == CONFIG_MAJOR && minor == CONFIG_MINOR {
            VersionCheck::Current
        } else {
            VersionCheck::Mismatch
        },
    }
}

/// The verdict on a parsed version (major, minor, patch), `None` standing for
/// text that is no version.
pub fn check_version(parsed: Option<(u64, u64, u64)>) -> (r: VersionCheck)
    ensures
        r == version_check_spec(parsed),
{
    match parsed {
        None => VersionCheck::Invalid,
        Some((major, minor, _)) => if major == CONFIG_MAJOR && minor == CONFIG_MINOR {
            VersionCheck::Current
        } else {
            VersionCheck::Mismatch
        },
    }
}

/// The verdict on a configuration's version text.
pub fn classify_config_version(version: &str) -> (r: VersionCheck)
    ensures
        r == version_check_spec(semver_parse(version@)),
{
    check_version(parse_version(version))
}

/// `s` with leading and trailing white space removed, as `str::trim` does it.
pub uninterp spec fn trimmed(s: Seq<char>) -> Seq<char>;

/// Whether `c` is a space, tab, line feed or carriage return.
pub open spec fn is_ascii_blank(c: char) -> bool {
    c == ' ' || c == '\t' || c == '\n' || c == '\r'
}

/// Whether `c` is a printable ASCII character other than space.
pub open spec fn is_ascii_graphic(c: char) -> bool {
    '!' <= c && c <= '~'
}

/// Whether the part of `s` from index `k` to `j` is what remains of `s` once
/// the ASCII blanks around it are dropped: all before `k` and from `j` on is
/// blank, and the part is empty or begins and ends with a printable character.
pub open spec fn ascii_trim_bounds(s: Seq<char>, k: int, j: int) -> bool {
    &&& 0 <= k <= j <= s.len()
    &&& forall|i: int| 0 <= i < k ==> is_ascii_blank(#[trigger] s[i])
    &&& forall|i: int| j <= i < s.len() ==> is_ascii_blank(#[trigger] s[i])
    &&& k < j ==> is_ascii_graphic(s[k]) && is_ascii_graphic(s[j - 1])
}

/// Relies on `str::trim` to drop leading and trailing white space. Spaces,
/// tabs, line feeds and carriage returns are white space; printable ASCII
/// characters are not.
#[verifier::external_body]
fn trim_str(s: &str) -> (r: &str)
    ensures
        r@ == trimmed(s@),
        forall|k: int, j: int| #[trigger] ascii_trim_bounds(s@, k, j) ==> r@ == s@.subrange(k, j),
{
    s.trim()
}

/// Whether an answer is "y", in either case.
pub open spec fn is_yes(s: Seq<char>) -> bool {
    s.len() == 1 && (s[0] == 'y' || s[0] == 'Y')
}

/// Whether the trimmed answer `answer` agrees to replacing the configuration.
pub fn is_yes_answer(answer: &str) -> (r: bool)
    ensures
        r == is_yes(answer@),
{
    if answer.unicode_len() != 1 {
        return false;
    }
    let c = answer.get_char(0);
    c == 'y' || c == 'Y'
}

/// Whether the line `input` that the operator typed agrees to replacing the
/// configuration; white space around the answer does not count.
pub fn migration_confirmed(input: &str) -> (r: bool)
    ensures
        r == is_yes(trimmed(input@)),
        forall|k: int, j: int|
            #[trigger] ascii_trim_bounds(input@, k, j) ==> r == is_yes(input@.subrange(k, j)),
{
    is_yes_answer(trim_str(input))
}

/// What follows the operator's answer to the question whether to replace a
/// configuration of another schema version.
#[derive(Debug, Clone, Copy, PartialEq, Eq, Structural)]
pub enum MigrationStep {
    /// Delete the configuration file and load again, which writes the
    /// default one.
    Regenerate,
    /// Leave the file alone and stop with a failure status.
    Exit,
}

/// The step that follows the line `input` that the operator typed.
pub fn migration_step(input: &str) -> (r: MigrationStep)
    ensures
        is_yes(trimmed(input@)) ==> r == MigrationStep::Regenerate,
        !is_yes(trimmed(input@)) ==> r == MigrationStep::Exit,
        forall|k: int, j: int|
            #[trigger] ascii_trim_bounds(input@, k, j) ==> (r == MigrationStep::Regenerate
                <==> is_yes(input@.subrange(k, j))),
{
    if migration_confirmed(input) {
        MigrationStep::Regenerate
    } else {
        MigrationStep::Exit
    }
}

/// The configuration directory under the user's base directory `base`: the
/// application data directory on Windows, the home directory elsewhere.
pub open spec fn config_dir_spec(base: Seq<char>, windows: bool) -> Seq<char> {
    if windows {
        join_path(base, "ocomp"@)
    } else {
        join_path(join_path(base, ".config"@), "ocomp"@)
    }
}

/// The configuration directory under the user's base directory `base`.
pub fn config_dir_path(base: &str, windows: bool) -> (r: String)
    ensures
        r@ == config_dir_spec(base@, windows),
{
    if windows {
        join(base, "ocomp")
    } else {
        let dot_config = join(base, ".config");
        join(dot_config.as_str(), "ocomp")
    }
}

/// The configuration file in the configuration directory `dir`.
pub fn config_file_path(dir: &str) -> (r: String)
    ensures
        r@ == join_path(dir@, "config.toml"@),
{
    join(dir, "config.toml")
}

/// The configuration written on first launch: the current schema version and
/// one target, `rust`.
pub open spec fn default_config_spec() -> Seq<char> {
    "version = \""@ + CONFIG_VERSION_TEXT@ + "\"\n\n[rust]\n    build = \"cargo build --release\"\n    output = \"target/release/*.exe\"\n"@
}

/// The text of the configuration written on first launch.
pub fn default_config_text() -> (r: String)
    ensures
        r@ == default_config_spec(),
{
    let mut r = String::from_str("version = \"");
    r.append(CONFIG_VERSION_TEXT);
    r.append("\"\n\n[rust]\n    build = \"cargo build --release\"\n    output = \"target/release/*.exe\"\n");
    r
}

} // verus!
