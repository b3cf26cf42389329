//! The options of a run, and the checks made on them.

use crate::text::{blank, is_blank};
use vstd::prelude::*;
use vstd::string::StringExecFns;

verus! {

/// The options of the `run` command.
#[derive(Debug, Clone)]
pub struct RunArgs {
    /// The directories to traverse, in order.
    pub input_paths: Vec<String>,
    /// Where the bundle is written.
    pub output_path: Option<String>,
    /// The directory whose ignore file applies, and against which the
    /// paths in the bundle are shown.
    pub root: Option<String>,
    /// Exclusion patterns, in the order given.
    pub exclude: Vec<String>,
    /// Whether the bundle is copied to the clipboard.
    pub clipboard: bool,
    /// Whether statistics on the bundle are shown.
    pub stats: bool,
    /// Whether the bundle is opened in an editor.
    pub editor: bool,
    /// Whether the bundle is deleted once the editor is closed.
    pub delete: bool,
    /// Whether progress is reported.
    pub verbose: bool,
    /// Whether entries whose name begins with a dot are left out.
    pub skip_hidden: bool,
    /// Whether content is taken as it is.
    pub raw: bool,
    /// Whether banners and animations are left out.
    pub fast_mode: bool,
}

/// The name of the bundle when none is given.
pub open spec fn default_output() -> Seq<char> {
    "./treeclip_temp.txt"@
}

/// Whether `path` names the current directory.
pub open spec fn names_current_dir(path: Seq<char>) -> bool {
    path == seq!['.'] || path == seq!['.', '/']
}

/// An input path with the current directory written out.
pub open spec fn resolved_dir(path: Seq<char>, current_dir: Seq<char>) -> Seq<char> {
    if names_current_dir(path) {
        current_dir
    } else {
        path
    }
}

/// Tells whether `path` names the current directory.
pub fn is_current_dir(path: &str) -> (b: bool)
    ensures
        b == names_current_dir(path@),
{
    let v = crate::text::chars_of(path);
    let b = (v.len() == 1 && v[0] == '.') || (v.len() == 2 && v[0] == '.' && v[1] == '/');
    proof {
        if b {
            if v.len() == 1 {
                assert(v@ =~= seq!['.']);
            } else {
                assert(v@ =~= seq!['.', '/']);
            }
        } else {
            if v@ == seq!['.'] {
                assert(v@.len() == 1 && v@[0] == '.');
            }
            if v@ == seq!['.', '/'] {
                assert(v@.len() == 2 && v@[0] == '.' && v@[1] == '/');
            }
        }
    }
    b
}

impl Default for RunArgs {
    /// The options of a run that names none: the current directory in, the
    /// default bundle out, hidden entries skipped.
    fn default() -> (args: RunArgs)
        ensures
            args.input_paths.deep_view() == seq![seq!['.']],
            args.output_path matches Some(p) && p@ == seq!['.'],
            args.root matches Some(p) && p@ == seq!['.'],
            args.exclude@.len() == 0,
            !args.clipboard && !args.stats && !args.editor && !args.delete && !args.verbose
                && !args.fast_mode,
            args.skip_hidden && args.raw,
    {
        let mut dot = String::new();
        dot.push('.');
        let mut input_paths: Vec<String> = Vec::new();
        input_paths.push(dot.clone());
        assert(input_paths.deep_view() =~= seq![seq!['.']]);
        RunArgs {
            input_paths,
            output_path: Some(dot.clone()),
            root: Some(dot),
            exclude: Vec::new(),
            clipboard: false,
            stats: false,
            editor: false,
            delete: false,
            verbose: false,
            skip_hidden: true,
            raw: true,
            fast_mode: false,
        }
    }
}

/// Accepts a path argument unless it is empty or blank.
pub fn validate_path(s: &str) -> (r: Result<String, String>)
    ensures
        !blank(s@) ==> (r matches Ok(path) && path@ == s@),
        blank(s@) ==> (r matches Err(why) && why@ == "Path cannot be empty"@),
{
    if is_blank(s) {
        return Err("Path cannot be empty".to_owned());
    }
    Ok(s.to_owned())
}

/// Writes out the paths of the options: the current directory named as an
/// input or as the root becomes `current_dir`; an output that is missing or
/// names the current directory becomes the default bundle name.
pub fn normalize_paths(args: &mut RunArgs, current_dir: &str)
    ensures
        final(args).input_paths@.len() == old(args).input_paths@.len(),
        forall|i: int|
            0 <= i < old(args).input_paths@.len() ==> (#[trigger] final(args).input_paths@[i])@
                == resolved_dir(old(args).input_paths@[i]@, current_dir@),
        final(args).output_path matches Some(out) && out@ == (match old(args).output_path {
            Some(given) if !names_current_dir(given@) => given@,
            _ => default_output(),
        }),
        final(args).root matches Some(root) && root@ == (match old(args).root {
            Some(given) => resolved_dir(given@, current_dir@),
            None => current_dir@,
        }),
        final(args).exclude == old(args).exclude,
        final(args).clipboard == old(args).clipboard,
        final(args).stats == old(args).stats,
        final(args).editor == old(args).editor,
        final(args).delete == old(args).delete,
        final(args).verbose == old(args).verbose,
        final(args).skip_hidden == old(args).skip_hidden,
        final(args).raw == old(args).raw,
        final(args).fast_mode == old(args).fast_mode,
{
    let mut inputs: Vec<String> = Vec::new();
    let mut i: usize = 0;
    while i < args.input_paths.len()
        invariant
            i <= args.input_paths@.len(),
            *args == *old(args),
            inputs@.len() == i,
            forall|k: int|
                0 <= k < i ==> (#[trigger] inputs@[k])@ == resolved_dir(
                    args.input_paths@[k]@,
                    current_dir@,
                ),
        decreases args.input_paths@.len() - i,
    {
        let path = if is_current_dir(args.input_paths[i].as_str()) {
            current_dir.to_owned()
        } else {
            args.input_paths[i].clone()
        };
        inputs.push(path);
        i += 1;
    }
    let output = match &args.output_path {
        Some(given) => {
            if is_current_dir(given.as_str()) {
                "./treeclip_temp.txt".to_owned()
            } else {
                given.clone()
            }
        },
        None => "./treeclip_temp.txt".to_owned(),
    };
    let root = match &args.root {
        Some(given) => {
            if is_current_dir(given.as_str()) {
                current_dir.to_owned()
            } else {
                given.clone()
            }
        },
        None => current_dir.to_owned(),
    };
    args.input_paths = inputs;
    args.output_path = Some(output);
    args.root = Some(root);
}

} // verus!
