//! The failures that the library reports, and the text of each.

use crate::text::{decimal, push_decimal};
use vstd::prelude::*;
use vstd::string::StringExecFns;

verus! {

/// The operating system's I/O error, carried as the cause of a failure.
#[verifier::external_type_specification]
#[verifier::external_body]
pub struct ExIoError(std::io::Error);

/// The pattern compiler's error, carried as the cause of a failure.
#[verifier::external_type_specification]
#[verifier::external_body]
pub struct ExIgnoreError(ignore::Error);

/// The directory walker's error, carried as the cause of a failure.
#[verifier::external_type_specification]
#[verifier::external_body]
pub struct ExWalkError(walkdir::Error);

/// `prefix` followed by `rest`.
pub fn joined(prefix: &str, rest: &str) -> (out: String)
    ensures
        out@ == prefix@ + rest@,
{
    let mut out = prefix.to_owned();
    out.append(rest);
    out
}

/// Failures of the clipboard.
#[derive(Debug)]
pub enum ClipboardError {
    /// The system clipboard could not be reached.
    InitializationFailed(String),
    /// The clipboard refused the content.
    SetFailed(String),
    /// The file to copy could not be read.
    ReadFailed { path: String, source: std::io::Error },
    /// The file to copy is larger than the clipboard may hold.
    ContentTooLarge { size: usize, max: usize },
}

impl ClipboardError {
    /// The text of the failure.
    pub open spec fn text(&self) -> Seq<char> {
        match self {
            ClipboardError::InitializationFailed(why) => "Failed to initialize clipboard: "@ + why@,
            ClipboardError::SetFailed(why) => "Failed to set clipboard content: "@ + why@,
            ClipboardError::ReadFailed { path, .. } => "Failed to read file for clipboard: "@
                + path@,
            ClipboardError::ContentTooLarge { size, max } => "Clipboard content too large: "@
                + decimal(*size as nat) + " bytes (max: "@ + decimal(*max as nat) + " bytes)"@,
        }
    }

    /// Renders the failure as text.
    pub fn message(&self) -> (out: String)
        ensures
            out@ == self.text(),
    {
        match self {
            ClipboardError::InitializationFailed(why) => joined(
                "Failed to initialize clipboard: ",
                why.as_str(),
            ),
            ClipboardError::SetFailed(why) => joined(
                "Failed to set clipboard content: ",
                why.as_str(),
            ),
            ClipboardError::ReadFailed { path, .. } => joined(
                "Failed to read file for clipboard: ",
                path.as_str(),
            ),
            ClipboardError::ContentTooLarge { size, max } => {
                let mut out = "Clipboard content too large: ".to_owned();
                push_decimal(&mut out, *size as u128);
                out.append(" bytes (max: ");
                push_decimal(&mut out, *max as u128);
                out.append(" bytes)");
                out
            },
        }
    }
}

/// Failures of the file system.
#[derive(Debug)]
pub enum FileSystemError {
    /// Nothing exists at the path.
    PathNotFound(String),
    /// The path could not be resolved to an absolute one.
    CanonicalizeFailed { path: String, source: std::io::Error },
    /// The file could not be read.
    ReadFailed { path: String, source: std::io::Error },
    /// The file could not be written.
    WriteFailed { path: String, source: std::io::Error },
    /// The file could not be deleted.
    DeleteFailed { path: String, source: std::io::Error },
    /// The directory could not be created.
    CreateDirFailed { path: String, source: std::io::Error },
    /// Access to the path was refused.
    PermissionDenied { path: String },
}

impl FileSystemError {
    /// The text of the failure.
    pub open spec fn text(&self) -> Seq<char> {
        match self {
            FileSystemError::PathNotFound(path) => "Path does not exist: "@ + path@,
            FileSystemError::CanonicalizeFailed { path, .. } => "Failed to canonicalize path: "@
                + path@,
            FileSystemError::ReadFailed { path, .. } => "Failed to read file: "@ + path@,
            FileSystemError::WriteFailed { path, .. } => "Failed to write file: "@ + path@,
            FileSystemError::DeleteFailed { path, .. } => "Failed to delete file: "@ + path@,
            FileSystemError::CreateDirFailed { path, .. } => "Failed to create directory: "@
                + path@,
            FileSystemError::PermissionDenied { path } => "Permission denied: "@ + path@,
        }
    }

    /// Renders the failure as text.
    pub fn message(&self) -> (out: String)
        ensures
            out@ == self.text(),
    {
        match self {
            FileSystemError::PathNotFound(path) => joined("Path does not exist: ", path.as_str()),
            FileSystemError::CanonicalizeFailed { path, .. } => joined(
                "Failed to canonicalize path: ",
                path.as_str(),
            ),
            FileSystemError::ReadFailed { path, .. } => joined(
                "Failed to read file: ",
                path.as_str(),
            ),
            FileSystemError::WriteFailed { path, .. } => joined(
                "Failed to write file: ",
                path.as_str(),
            ),
            FileSystemError::DeleteFailed { path, .. } => joined(
                "Failed to delete file: ",
                path.as_str(),
            ),
            FileSystemError::CreateDirFailed { path, .. } => joined(
                "Failed to create directory: ",
                path.as_str(),
            ),
            FileSystemError::PermissionDenied { path } => joined(
                "Permission denied: ",
                path.as_str(),
            ),
        }
    }
}

/// Failures of a directory traversal.
#[derive(Debug)]
#[allow(inconsistent_fields)]
pub enum TraversalError {
    /// The walk over the directory broke off.
    WalkFailed { path: String, source: walkdir::Error },
    /// One entry of a directory could not be reached.
    EntryAccessFailed { path: String },
    /// The bundle could not be written.
    OutputWriteFailed { path: String, source: std::io::Error },
    /// The traversal found no file to bundle; the payload names where.
    NoFilesFound(String),
}

impl TraversalError {
    /// The text of the failure.
    pub open spec fn text(&self) -> Seq<char> {
        match self {
            TraversalError::WalkFailed { path, .. } => "Failed to traverse directory: "@ + path@,
            TraversalError::EntryAccessFailed { path } => "Failed to access directory entry: "@
                + path@,
            TraversalError::OutputWriteFailed { path, .. } => "Failed to write output file: "@
                + path@,
            TraversalError::NoFilesFound(path) => "No files found in directory: "@ + path@,
        }
    }

    /// Renders the failure as text.
    pub fn message(&self) -> (out: String)
        ensures
            out@ == self.text(),
    {
        match self {
            TraversalError::WalkFailed { path, .. } => joined(
                "Failed to traverse directory: ",
                path.as_str(),
            ),
            TraversalError::EntryAccessFailed { path } => joined(
                "Failed to access directory entry: ",
                path.as_str(),
            ),
            TraversalError::OutputWriteFailed { path, .. } => joined(
                "Failed to write output file: ",
                path.as_str(),
            ),
            TraversalError::NoFilesFound(path) => joined(
                "No files found in directory: ",
                path.as_str(),
            ),
        }
    }
}

/// Failures of the editor launch.
#[derive(Debug)]
pub enum EditorError {
    /// The editor could not be started for the file.
    OpenFailed { path: String, source: std::io::Error },
    /// The editor ran and reported failure; `status` is how it ended.
    ProcessFailed { status: String },
    /// No editor was available; the payload lists what was tried.
    NoEditorFound(String),
    /// The `EDITOR` variable could not be read.
    NoEditorEnvVar,
}

impl EditorError {
    /// The text of the failure.
    pub open spec fn text(&self) -> Seq<char> {
        match self {
            EditorError::OpenFailed { path, .. } => "Failed to open editor for file: "@ + path@,
            EditorError::ProcessFailed { status } => "Editor process failed with status: "@
                + status@,
            EditorError::NoEditorFound(tried) => "No suitable editor found (tried: "@ + tried@
                + ")"@,
            EditorError::NoEditorEnvVar => "Failed to get EDITOR environment variable"@,
        }
    }

    /// Renders the failure as text.
    pub fn message(&self) -> (out: String)
        ensures
            out@ == self.text(),
    {
        match self {
            EditorError::OpenFailed { path, .. } => joined(
                "Failed to open editor for file: ",
                path.as_str(),
            ),
            EditorError::ProcessFailed { status } => joined(
                "Editor process failed with status: ",
                status.as_str(),
            ),
            EditorError::NoEditorFound(tried) => {
                let mut out = joined("No suitable editor found (tried: ", tried.as_str());
                out.append(")");
                out
            },
            EditorError::NoEditorEnvVar => "Failed to get EDITOR environment variable".to_owned(),
        }
    }
}

/// Failures of the exclusion rules.
#[derive(Debug)]
#[allow(inconsistent_fields)]
pub enum PatternError {
    /// A rule does not compile. `index` is its position in the combined list
    /// of rules, counted from zero: the lines of the ignore file first, then
    /// the patterns of the request.
    InvalidPattern { pattern: String, index: usize, source: ignore::Error },
    /// The ignore file could not be read.
    IgnoreFileReadFailed { path: String, source: std::io::Error },
    /// Every rule compiles, but the set of them does not.
    BuildFailed { source: ignore::Error },
}

impl PatternError {
    /// The text of the failure.
    pub open spec fn text(&self) -> Seq<char> {
        match self {
            PatternError::InvalidPattern { pattern, .. } => "Invalid exclusion pattern: "@
                + pattern@,
            PatternError::IgnoreFileReadFailed { path, .. } => "Failed to read ignore file: "@
                + path@,
            PatternError::BuildFailed { .. } => "Failed to build gitignore matcher"@,
        }
    }

    /// Renders the failure as text.
    pub fn message(&self) -> (out: String)
        ensures
            out@ == self.text(),
    {
        match self {
            PatternError::InvalidPattern { pattern, .. } => joined(
                "Invalid exclusion pattern: ",
                pattern.as_str(),
            ),
            PatternError::IgnoreFileReadFailed { path, .. } => joined(
                "Failed to read ignore file: ",
                path.as_str(),
            ),
            PatternError::BuildFailed { .. } => "Failed to build gitignore matcher".to_owned(),
        }
    }
}

/// Any failure of the library.
#[derive(Debug)]
pub enum TreeClipError {
    /// A failure of the clipboard.
    Clipboard(ClipboardError),
    /// A failure of the file system.
    FileSystem(FileSystemError),
    /// A failure of a traversal.
    Traversal(TraversalError),
    /// A failure of the editor launch.
    Editor(EditorError),
    /// A failure of the exclusion rules.
    Pattern(PatternError),
    /// An I/O failure, with a sentence on what was being done.
    Io { message: String, source: std::io::Error },
}

impl TreeClipError {
    /// The text of the failure.
    pub open spec fn text(&self) -> Seq<char> {
        match self {
            TreeClipError::Clipboard(e) => "Clipboard error: "@ + e.text(),
            TreeClipError::FileSystem(e) => "File system error: "@ + e.text(),
            TreeClipError::Traversal(e) => "Traversal error: "@ + e.text(),
            TreeClipError::Editor(e) => "Editor error: "@ + e.text(),
            TreeClipError::Pattern(e) => "Pattern error: "@ + e.text(),
            TreeClipError::Io { message, .. } => "I/O error: "@ + message@,
        }
    }

    /// Renders the failure as text.
    pub fn message(&self) -> (out: String)
        ensures
            out@ == self.text(),
    {
        match self {
            TreeClipError::Clipboard(e) => joined("Clipboard error: ", e.message().as_str()),
            TreeClipError::FileSystem(e) => joined("File system error: ", e.message().as_str()),
            TreeClipError::Traversal(e) => joined("Traversal error: ", e.message().as_str()),
            TreeClipError::Editor(e) => joined("Editor error: ", e.message().as_str()),
            TreeClipError::Pattern(e) => joined("Pattern error: ", e.message().as_str()),
            TreeClipError::Io { message, .. } => joined("I/O error: ", message.as_str()),
        }
    }

    /// An I/O failure with a sentence on what was being done.
    pub fn io_with_context(message: &str, source: std::io::Error) -> (e: TreeClipError)
        ensures
            e matches TreeClipError::Io { message: m, source: s } && m@ == message@ && s == source,
    {
        TreeClipError::Io { message: message.to_owned(), source }
    }
}

impl From<ClipboardError> for TreeClipError {
    fn from(e: ClipboardError) -> (out: TreeClipError) {
        TreeClipError::Clipboard(e)
    }
}

impl vstd::std_specs::convert::FromSpecImpl<ClipboardError> for TreeClipError {
    open spec fn obeys_from_spec() -> bool {
        true
    }

    open spec fn from_spec(e: ClipboardError) -> TreeClipError {
        TreeClipError::Clipboard(e)
    }
}

impl From<FileSystemError> for TreeClipError {
    fn from(e: FileSystemError) -> (out: TreeClipError) {
        TreeClipError::FileSystem(e)
    }
}

impl vstd::std_specs::convert::FromSpecImpl<FileSystemError> for TreeClipError {
    open spec fn obeys_from_spec() -> bool {
        true
    }

    open spec fn from_spec(e: FileSystemError) -> TreeClipError {
        TreeClipError::FileSystem(e)
    }
}

impl From<TraversalError> for TreeClipError {
    fn from(e: TraversalError) -> (out: TreeClipError) {
        TreeClipError::Traversal(e)
    }
}

impl vstd::std_specs::convert::FromSpecImpl<TraversalError> for TreeClipError {
    open spec fn obeys_from_spec() -> bool {
        true
    }

    open spec fn from_spec(e: TraversalError) -> TreeClipError {
        TreeClipError::Traversal(e)
    }
}

impl From<EditorError> for TreeClipError {
    fn from(e: EditorError) -> (out: TreeClipError) {
        TreeClipError::Editor(e)
    }
}

impl vstd::std_specs::convert::FromSpecImpl<EditorError> for TreeClipError {
    open spec fn obeys_from_spec() -> bool {
        true
    }

    open spec fn from_spec(e: EditorError) -> TreeClipError {
        TreeClipError::Editor(e)
    }
}

impl From<PatternError> for TreeClipError {
    fn from(e: PatternError) -> (out: TreeClipError) {
        TreeClipError::Pattern(e)
    }
}

impl vstd::std_specs::convert::FromSpecImpl<PatternError> for TreeClipError {
    open spec fn obeys_from_spec() -> bool {
        true
    }

    open spec fn from_spec(e: PatternError) -> TreeClipError {
        TreeClipError::Pattern(e)
    }
}

} // verus!
