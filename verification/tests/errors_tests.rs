use std::io;
use treeclip::errors::{
    ClipboardError, EditorError, FileSystemError, PatternError, TraversalError, TreeClipError,
};

#[test]
fn test_clipboard_error_display() {
    let err = ClipboardError::InitializationFailed("test error".to_string());
    assert!(err.message().contains("Failed to initialize clipboard"));
    assert_eq!(err.message(), "Failed to initialize clipboard: test error");
}

#[test]
fn test_filesystem_error_display() {
    let path = "/test/path".to_string();
    let err = FileSystemError::PathNotFound(path.clone());
    assert!(err.message().contains("/test/path"));
    assert_eq!(err.message(), "Path does not exist: /test/path");
}

#[test]
fn test_traversal_error_display() {
    let err = TraversalError::NoFilesFound("/test/dir".to_string());
    assert!(err.message().contains("No files found"));
    assert_eq!(err.message(), "No files found in directory: /test/dir");
}

#[test]
fn test_editor_error_display() {
    let err = EditorError::NoEditorFound("vim, nano".to_string());
    assert!(err.message().contains("No suitable editor found"));
    assert_eq!(err.message(), "No suitable editor found (tried: vim, nano)");
}

#[test]
fn test_pattern_error_display() {
    let pattern = "**invalid**";
    let ignore_err = ignore::Error::Glob { glob: Some(pattern.to_string()), err: "test".to_string() };
    let err = PatternError::InvalidPattern { pattern: pattern.to_string(), index: 0, source: ignore_err };
    assert!(err.message().contains("Invalid exclusion pattern"));
    assert_eq!(err.message(), "Invalid exclusion pattern: **invalid**");
}

#[test]
fn test_io_error_with_context() {
    let io_err = io::Error::new(io::ErrorKind::NotFound, "file not found");
    let err = TreeClipError::io_with_context("Failed to read config", io_err);
    assert!(err.message().contains("Failed to read config"));
    assert_eq!(err.message(), "I/O error: Failed to read config");
}

#[test]
fn test_error_chain() {
    let io_err = io::Error::new(io::ErrorKind::PermissionDenied, "access denied");
    let fs_err = FileSystemError::ReadFailed { path: "/test".to_string(), source: io_err };
    let main_err = TreeClipError::FileSystem(fs_err);

    let err_string = main_err.message();
    assert!(err_string.contains("File system error"));
    assert!(err_string.contains("Failed to read file"));
    assert_eq!(err_string, "File system error: Failed to read file: /test");
}

#[test]
fn every_clipboard_error_has_its_text() {
    assert_eq!(
        ClipboardError::SetFailed("busy".to_string()).message(),
        "Failed to set clipboard content: busy"
    );
    let cause = io::Error::new(io::ErrorKind::NotFound, "gone");
    assert_eq!(
        ClipboardError::ReadFailed { path: "out.txt".to_string(), source: cause }.message(),
        "Failed to read file for clipboard: out.txt"
    );
    assert_eq!(
        ClipboardError::ContentTooLarge { size: 104857601, max: 104857600 }.message(),
        "Clipboard content too large: 104857601 bytes (max: 104857600 bytes)"
    );
}

#[test]
fn every_file_system_error_has_its_text() {
    let cause = || io::Error::new(io::ErrorKind::Other, "x");
    let p = || "a/b".to_string();
    assert_eq!(
        FileSystemError::CanonicalizeFailed { path: p(), source: cause() }.message(),
        "Failed to canonicalize path: a/b"
    );
    assert_eq!(
        FileSystemError::WriteFailed { path: p(), source: cause() }.message(),
        "Failed to write file: a/b"
    );
    assert_eq!(
        FileSystemError::DeleteFailed { path: p(), source: cause() }.message(),
        "Failed to delete file: a/b"
    );
    assert_eq!(
        FileSystemError::CreateDirFailed { path: p(), source: cause() }.message(),
        "Failed to create directory: a/b"
    );
    assert_eq!(FileSystemError::PermissionDenied { path: p() }.message(), "Permission denied: a/b");
}

#[test]
fn every_other_error_has_its_text() {
    let cause = || io::Error::new(io::ErrorKind::Other, "x");
    assert_eq!(
        TraversalError::EntryAccessFailed { path: "d/e".to_string() }.message(),
        "Failed to access directory entry: d/e"
    );
    assert_eq!(
        TraversalError::OutputWriteFailed { path: "o".to_string(), source: cause() }.message(),
        "Failed to write output file: o"
    );
    assert_eq!(
        EditorError::OpenFailed { path: "o".to_string(), source: cause() }.message(),
        "Failed to open editor for file: o"
    );
    assert_eq!(
        EditorError::ProcessFailed { status: "exit status: 1".to_string() }.message(),
        "Editor process failed with status: exit status: 1"
    );
    assert_eq!(
        EditorError::NoEditorEnvVar.message(),
        "Failed to get EDITOR environment variable"
    );
    assert_eq!(
        PatternError::IgnoreFileReadFailed { path: "r/.treeclipignore".to_string(), source: cause() }
            .message(),
        "Failed to read ignore file: r/.treeclipignore"
    );
    let glob = ignore::Error::Glob { glob: None, err: "too big".to_string() };
    assert_eq!(
        PatternError::BuildFailed { source: glob }.message(),
        "Failed to build gitignore matcher"
    );
}

#[test]
fn errors_convert_into_the_general_error() {
    let e: TreeClipError = ClipboardError::SetFailed("busy".to_string()).into();
    assert_eq!(e.message(), "Clipboard error: Failed to set clipboard content: busy");
    let e: TreeClipError = TraversalError::NoFilesFound("d".to_string()).into();
    assert_eq!(e.message(), "Traversal error: No files found in directory: d");
    let e: TreeClipError = EditorError::NoEditorEnvVar.into();
    assert_eq!(e.message(), "Editor error: Failed to get EDITOR environment variable");
    let e: TreeClipError = FileSystemError::PathNotFound("p".to_string()).into();
    assert_eq!(e.message(), "File system error: Path does not exist: p");
    let glob = ignore::Error::Glob { glob: None, err: "x".to_string() };
    let e: TreeClipError = PatternError::BuildFailed { source: glob }.into();
    assert_eq!(e.message(), "Pattern error: Failed to build gitignore matcher");
}
