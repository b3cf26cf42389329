//! The decisions around opening a bundle in an editor: which command opens
//! a file on which platform, and what follows when a launch fails.

use crate::errors::{EditorError, FileSystemError, TreeClipError};
use vstd::prelude::*;

verus! {

/// The kinds of platform that open a file in different ways.
#[derive(Debug, Clone, Copy, PartialEq, Eq, Structural)]
pub enum Platform {
    Windows,
    MacOs,
    Unix,
    Other,
}

/// How an attempt to run an editor ended.
#[derive(Debug)]
pub enum Launch {
    /// The editor ran and reported success.
    Succeeded,
    /// The editor ran and reported failure; the payload is how it ended.
    Failed(String),
    /// The editor could not be started.
    NotStarted(std::io::Error),
}

/// What to do after the platform's own command was tried.
#[derive(Debug, Clone, Copy, PartialEq, Eq, Structural)]
pub enum NextStep {
    /// The file was opened: nothing is left to do.
    Done,
    /// Fall back to the editor of the command line.
    TryCliEditor,
}

/// The command that opens a file on a platform; empty where there is none.
pub open spec fn open_command(platform: Platform) -> Seq<char> {
    match platform {
        Platform::Windows => "start"@,
        Platform::MacOs => "open"@,
        Platform::Unix => "xdg-open"@,
        Platform::Other => ""@,
    }
}

/// The command that opens a file on `platform`.
pub fn get_platform_open_command(platform: Platform) -> (command: &'static str)
    ensures
        command@ == open_command(platform),
{
    match platform {
        Platform::Windows => "start",
        Platform::MacOs => "open",
        Platform::Unix => "xdg-open",
        Platform::Other => "",
    }
}

/// Checks what is needed before a file is opened: a command for the
/// platform, and the absolute form of the path. `resolved` is what the file
/// system answered when asked for that form. Returns the command and the
/// path to hand to it.
pub fn plan_open(platform: Platform, path: &str, resolved: Result<String, std::io::Error>) -> (r:
    Result<(&'static str, String), TreeClipError>)
    ensures
        platform == Platform::Other ==> (r matches Err(
            TreeClipError::Editor(EditorError::NoEditorFound(why)),
        ) && why@ == "No platform-specific command available"@),
        platform != Platform::Other ==> (match resolved {
            Ok(absolute) => (r matches Ok(plan) && plan.0@ == open_command(platform) && plan.1
                == absolute),
            Err(cause) => (r matches Err(
                TreeClipError::FileSystem(FileSystemError::CanonicalizeFailed { path: p, source }),
            ) && p@ == path@ && source == cause),
        }),
{
    let command = get_platform_open_command(platform);
    match platform {
        Platform::Other => {
            return Err(
                TreeClipError::Editor(
                    EditorError::NoEditorFound(
                        "No platform-specific command available".to_owned(),
                    ),
                ),
            );
        },
        _ => {},
    }
    match resolved {
        Ok(absolute) => Ok((command, absolute)),
        Err(source) => Err(
            TreeClipError::FileSystem(
                FileSystemError::CanonicalizeFailed { path: path.to_owned(), source },
            ),
        ),
    }
}

/// What follows the platform's own command: nothing if it opened the file,
/// the editor of the command line if it failed or could not be started.
pub fn after_default_editor(outcome: &Launch) -> (next: NextStep)
    ensures
        next == (if outcome is Succeeded {
            NextStep::Done
        } else {
            NextStep::TryCliEditor
        }),
{
    match outcome {
        Launch::Succeeded => NextStep::Done,
        _ => NextStep::TryCliEditor,
    }
}

/// The editor of the command line: the one that the environment names
/// (`from_env` is the value of `EDITOR`, if it is set), else `/bin/nano`.
pub fn cli_editor(from_env: Option<String>) -> (editor: String)
    ensures
        editor@ == (match from_env {
            Some(named) => named@,
            None => "/bin/nano"@,
        }),
{
    match from_env {
        Some(named) => named,
        None => "/bin/nano".to_owned(),
    }
}

/// What the run of the command-line editor on `path` comes to.
pub fn after_cli_editor(path: &str, outcome: Launch) -> (r: Result<(), EditorError>)
    ensures
        match outcome {
            Launch::Succeeded => r is Ok,
            Launch::Failed(how) => r == Err::<(), EditorError>(
                EditorError::ProcessFailed { status: how },
            ),
            Launch::NotStarted(cause) => (r matches Err(EditorError::OpenFailed { path: p, source })
                && p@ == path@ && source == cause),
        },
{
    match outcome {
        Launch::Succeeded => Ok(()),
        Launch::Failed(status) => Err(EditorError::ProcessFailed { status }),
        Launch::NotStarted(source) => Err(
            EditorError::OpenFailed { path: path.to_owned(), source },
        ),
    }
}

/// What a failed deletion of `path` is reported as.
pub fn delete_failed(path: &str, source: std::io::Error) -> (e: FileSystemError)
    ensures
        e matches FileSystemError::DeleteFailed { path: p, source: s } && p@ == path@ && s
            == source,
{
    FileSystemError::DeleteFailed { path: path.to_owned(), source }
}

} // verus!
