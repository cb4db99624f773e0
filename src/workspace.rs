//! The upload root and the per-request workspaces beneath it.
//!
//! The upload root is held in an explicit context value that starts unset, is
//! set once during start-up, and is only read afterwards. Each workspace is a
//! directory of the upload root named after a fresh random identifier.

use vstd::prelude::*;
use crate::paths::{join, join_path};
use crate::dispatch::concat_str;

verus! {

/// The service's upload root, once start-up has chosen it.
pub struct UploadDir {
    path: Option<String>,
}

impl View for UploadDir {
    type V = Option<Seq<char>>;

    closed spec fn view(&self) -> Option<Seq<char>> {
        match self.path {
            Some(p) => Some(p@),
            None => None,
        }
    }
}

impl UploadDir {
    /// A context whose upload root is not chosen yet.
    pub fn new() -> (r: UploadDir)
        ensures
            r@ is None,
    {
        UploadDir { path: None }
    }

    /// Whether the upload root has been chosen.
    pub fn is_set(&self) -> (r: bool)
        ensures
            r == self@ is Some,
    {
        self.path.is_some()
    }
}

/// Chooses the upload root. It is chosen once and never changes afterwards.
pub fn set_upload_dir(state: &mut UploadDir, path: String)
    requires
        old(state)@ is None,
    ensures
        final(state)@ == Some(path@),
{
    state.path = Some(path);
}

/// The upload root; reading it before it is chosen is a logic error that the
/// precondition rules out.
pub fn get_upload_dir(state: &UploadDir) -> (r: String)
    requires
        state@ is Some,
    ensures
        Some(r@) == state@,
{
    match &state.path {
        Some(p) => p.clone(),
        None => String::new(),
    }
}

/// The directory under the configuration directory that holds uploads.
pub open spec fn upload_root_spec(config_dir: Seq<char>) -> Seq<char> {
    join_path(config_dir, "uploads"@)
}

/// The upload root that belongs to `config_dir`.
pub fn upload_root_path(config_dir: &str) -> (r: String)
    ensures
        r@ == upload_root_spec(config_dir@),
{
    join(config_dir, "uploads")
}

/// Whether `c` is a lowercase hexadecimal digit.
pub open spec fn is_lower_hex(c: char) -> bool {
    ('0' <= c && c <= '9') || ('a' <= c && c <= 'f')
}

/// Whether `s` is a random identifier in hyphenated form: 36 characters, '-'
/// at indices 8, 13, 18 and 23, lowercase hexadecimal digits elsewhere, the
/// version digit '4' at index 14 and a variant digit from '8' to 'b' at index
/// 19.
pub open spec fn is_hyphenated_id(s: Seq<char>) -> bool {
    &&& s.len() == 36
    &&& s[14] == '4'
    &&& (s[19] == '8' || s[19] == '9' || s[19] == 'a' || s[19] == 'b')
    &&& forall|i: int|
        0 <= i < 36 ==> if i == 8 || i == 13 || i == 18 || i == 23 {
            s[i] == '-'
        } else {
            is_lower_hex(#[trigger] s[i])
        }
}

/// Relies on `uuid::Uuid::new_v4` for a random identifier whose version and
/// variant bits are fixed, and on the
/// `Display` impl of `uuid::Uuid`, which writes it in lowercase hyphenated
/// form.
#[verifier::external_body]
fn random_workspace_id() -> (r: String)
    ensures
        is_hyphenated_id(r@),
{
    uuid::Uuid::new_v4().to_string()
}

/// The name of the workspace directory for identifier `id`.
pub open spec fn workspace_name(id: Seq<char>) -> Seq<char> {
    "build-"@ + id
}

/// The path of the workspace for identifier `id` under the upload root `root`.
pub open spec fn workspace_path(root: Seq<char>, id: Seq<char>) -> Seq<char> {
    join_path(root, workspace_name(id))
}

/// The path of the workspace for identifier `id` under the upload root `root`.
pub fn build_directory_path(root: &str, id: &str) -> (r: String)
    ensures
        r@ == workspace_path(root@, id@),
{
    let name = concat_str("build-", id);
    join(root, name.as_str())
}

/// The path of a fresh workspace under the upload root, named after a new
/// random identifier. The directory itself is for the caller to create.
pub fn new_build_directory_path(state: &UploadDir) -> (r: String)
    requires
        state@ is Some,
    ensures
        exists|id: Seq<char>|
            is_hyphenated_id(id) && r@ == #[trigger] workspace_path(state@->Some_0, id),
{
    let root = get_upload_dir(state);
    let id = random_workspace_id();
    let r = build_directory_path(root.as_str(), id.as_str());
    assert(is_hyphenated_id(id@) && r@ == workspace_path(state@->Some_0, id@));
    r
}

/// Workspaces whose identifiers differ have different paths, whatever the
/// upload root: distinct identifiers never share a workspace.
pub proof fn lemma_distinct_ids_distinct_workspaces(root: Seq<char>, id1: Seq<char>, id2: Seq<char>)
    requires
        id1 != id2,
    ensures
        workspace_path(root, id1) != workspace_path(root, id2),
{
    reveal_strlit("build-");
    let n1 = workspace_name(id1);
    let n2 = workspace_name(id2);
    assert(n1[0] == 'b');
    assert(n2[0] == 'b');
    let p1 = workspace_path(root, id1);
    let p2 = workspace_path(root, id2);
    let k: int = if root.len() == 0 {
        0
    } else if root[root.len() - 1] == '/' {
        root.len() as int
    } else {
        root.len() + 1int
    };
    assert(p1.subrange(k, p1.len() as int) =~= n1);
    assert(p2.subrange(k, p2.len() as int) =~= n2);
    if p1 == p2 {
        assert(n1 == n2);
        assert(id1 =~= n1.subrange(6, n1.len() as int));
        assert(id2 =~= n2.subrange(6, n2.len() as int));
    }
}

} // verus!
