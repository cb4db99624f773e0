//! Staging uploaded files into a workspace.
//!
//! The caller reads the multipart stream; for each field it hands this session
//! the field's file name and bytes and gets back the write to perform. When
//! the stream ends, the session says which files were staged, or that nothing
//! was uploaded.

use vstd::prelude::*;
use crate::paths::{is_plain_component, plain_component};
use crate::dispatch::concat_str;

verus! {

/// The name under which a field without a file name is stored.
pub const DEFAULT_FILE_NAME: &'static str = "uploaded_file";

/// Why receiving an upload failed.
#[derive(Debug, PartialEq, Eq)]
pub enum UploadError {
    /// The next field of the stream could not be read.
    ReadField { error: String },
    /// A field's contents could not be read.
    ReadFile { error: String },
    /// A staged file could not be written.
    SaveFile { error: String },
    /// A field's file name would place it outside the workspace.
    InvalidFileName { name: String },
    /// The stream held no field at all.
    NoFileUploaded,
}

/// The text that reports an upload failure.
pub open spec fn upload_error_message(e: UploadError) -> Seq<char> {
    match e {
        UploadError::ReadField { error } => "Error reading field: "@ + error@,
        UploadError::ReadFile { error } => "Error reading file: "@ + error@,
        UploadError::SaveFile { error } => "Failed to save file: "@ + error@,
        UploadError::InvalidFileName { name } => "Invalid file name: "@ + name@,
        UploadError::NoFileUploaded => "No file uploaded"@,
    }
}

impl UploadError {
    /// A line for the person who uploaded.
    pub fn message(&self) -> (r: String)
        ensures
            r@ == upload_error_message(*self),
    {
        match self {
            UploadError::ReadField { error } => concat_str("Error reading field: ", error.as_str()),
            UploadError::ReadFile { error } => concat_str("Error reading file: ", error.as_str()),
            UploadError::SaveFile { error } => concat_str("Failed to save file: ", error.as_str()),
            UploadError::InvalidFileName { name } => concat_str("Invalid file name: ", name.as_str()),
            UploadError::NoFileUploaded => String::from_str("No file uploaded"),
        }
    }
}

/// The view of an optional string.
pub open spec fn opt_view(s: Option<String>) -> Option<Seq<char>> {
    match s {
        Some(x) => Some(x@),
        None => None,
    }
}

/// The name a field is stored under: its own file name, or the default name
/// when the client gave none.
pub open spec fn stored_name(name: Option<Seq<char>>) -> Seq<char> {
    match name {
        Some(n) => n,
        None => DEFAULT_FILE_NAME@,
    }
}

/// The name a field with file name `name` is stored under.
pub fn field_file_name(name: Option<String>) -> (r: String)
    ensures
        r@ == stored_name(opt_view(name)),
{
    match name {
        Some(n) => n,
        None => String::from_str(DEFAULT_FILE_NAME),
    }
}

/// What a session knows: its workspace and the files staged so far, in
/// order, each as its name and the number of bytes written.
pub struct SessionModel {
    pub workspace: Seq<char>,
    pub staged: Seq<(Seq<char>, nat)>,
}

/// A session in `workspace` that has staged nothing yet.
pub open spec fn empty_session(workspace: Seq<char>) -> SessionModel {
    SessionModel { workspace, staged: seq![] }
}

/// The session after a field stored as `name` with `len` bytes was staged.
pub open spec fn after_field(m: SessionModel, name: Seq<char>, len: nat) -> SessionModel {
    SessionModel { workspace: m.workspace, staged: m.staged.push((name, len)) }
}

/// Where a file stored as `name` is written in `workspace`: directly inside
/// it.
pub open spec fn staged_path(workspace: Seq<char>, name: Seq<char>) -> Seq<char> {
    workspace + seq!['/'] + name
}

/// What the end of the stream yields: the staged files, or nothing when no
/// field arrived.
pub open spec fn finish_spec(m: SessionModel) -> Option<Seq<(Seq<char>, nat)>> {
    if m.staged.len() == 0 {
        None
    } else {
        Some(m.staged)
    }
}

/// The view of a list of staged files.
pub open spec fn staged_views(v: Seq<(String, usize)>) -> Seq<(Seq<char>, nat)> {
    v.map_values(|e: (String, usize)| (e.0@, e.1 as nat))
}

/// A write to perform: `bytes` go to the file at `path`.
pub struct StagedWrite {
    pub path: String,
    pub bytes: Vec<u8>,
}

/// Whether receiving a field stored as `name` with contents `data` in session
/// `m` may give `r` and leave the session as `m2`: a plain name gives the
/// write of `data` directly inside the workspace and records the file;
/// another name is refused and leaves the session as it was.
pub open spec fn is_receive_result(
    m: SessionModel,
    name: Seq<char>,
    data: Seq<u8>,
    r: Result<StagedWrite, UploadError>,
    m2: SessionModel,
) -> bool {
    if is_plain_component(name) {
        &&& m2 == after_field(m, name, data.len())
        &&& match r {
            Ok(w) => w.path@ == staged_path(m.workspace, name) && w.bytes@ == data,
            Err(_) => false,
        }
    } else {
        &&& m2 == m
        &&& match r {
            Err(UploadError::InvalidFileName { name: n }) => n@ == name,
            _ => false,
        }
    }
}

/// The receiving of one upload into one workspace.
pub struct UploadSession {
    workspace: String,
    staged: Vec<(String, usize)>,
}

impl View for UploadSession {
    type V = SessionModel;

    closed spec fn view(&self) -> SessionModel {
        SessionModel { workspace: self.workspace@, staged: staged_views(self.staged@) }
    }
}

impl UploadSession {
    /// Starts receiving into the workspace directory `workspace`.
    pub fn new(workspace: String) -> (r: UploadSession)
        ensures
            r@ == empty_session(workspace@),
    {
        let r = UploadSession { workspace, staged: Vec::new() };
        assert(r@.staged =~= seq![]);
        r
    }

    /// Receives a field with file name `file_name` and contents `data`, and
    /// returns the write that stages it directly inside the workspace. A name
    /// that is not a single plain entry (absolute, with a separator, `.` or
    /// `..`) could reach outside the workspace: it is refused and nothing is
    /// staged.
    pub fn receive_field(&mut self, file_name: Option<String>, data: Vec<u8>) -> (r: Result<
        StagedWrite,
        UploadError,
    >)
        ensures
            is_receive_result(
                old(self)@,
                stored_name(opt_view(file_name)),
                data@,
                r,
                final(self)@,
            ),
    {
        let name = field_file_name(file_name);
        if !plain_component(name.as_str()) {
            return Err(UploadError::InvalidFileName { name });
        }
        let mut path = String::from_str(self.workspace.as_str());
        path.append("/");
        path.append(name.as_str());
        proof {
            reveal_strlit("/");
        }
        assert(path@ =~= staged_path(self.workspace@, name@));
        let len = data.len();
        self.staged.push((name, len));
        assert(staged_views(self.staged@) =~= staged_views(old(self).staged@).push(
            (stored_name(opt_view(file_name)), data@.len()),
        ));
        assert(self@ == after_field(old(self)@, name@, data@.len()));
        Ok(StagedWrite { path, bytes: data })
    }

    /// Ends the stream: the staged files in order, or `NoFileUploaded` when
    /// no field arrived.
    pub fn finish(self) -> (r: Result<Vec<(String, usize)>, UploadError>)
        ensures
            match finish_spec(self@) {
                Some(files) => r matches Ok(v) && staged_views(v@) == files,
                None => r == Err::<Vec<(String, usize)>, UploadError>(UploadError::NoFileUploaded),
            },
    {
        if self.staged.len() == 0 {
            Err(UploadError::NoFileUploaded)
        } else {
            Ok(self.staged)
        }
    }
}

/// An upload that ends without any field fails with `NoFileUploaded`.
pub proof fn lemma_empty_upload_fails(workspace: Seq<char>)
    ensures
        finish_spec(empty_session(workspace)) is None,
{
}

/// An upload of one field with a plain name stages exactly that one file,
/// with all its bytes, directly inside the workspace: the path is the
/// workspace followed by the name, so it lies under no other directory.
pub proof fn lemma_single_field_upload(workspace: Seq<char>, name: Seq<char>, len: nat)
    requires
        is_plain_component(name),
    ensures
        finish_spec(after_field(empty_session(workspace), name, len)) == Some(seq![(name, len)]),
        staged_path(workspace, name).subrange(0, workspace.len() as int) == workspace,
        staged_path(workspace, name)[workspace.len() as int] == '/',
        staged_path(workspace, name).subrange(workspace.len() + 1int, staged_path(workspace, name).len() as int)
            == name,
{
    assert(seq![].push((name, len)) =~= seq![(name, len)]);
    let p = staged_path(workspace, name);
    assert(p.subrange(0, workspace.len() as int) =~= workspace);
    assert(p.subrange(workspace.len() + 1int, p.len() as int) =~= name);
}

} // verus!
