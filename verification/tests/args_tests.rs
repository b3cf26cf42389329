use std::path::PathBuf;
use treeclip::args::{is_current_dir, normalize_paths, validate_path, RunArgs};
use treeclip::cli::{Cli, Commands};

#[test]
fn args_test_validate_path_valid() {
    let result = validate_path(".");
    assert!(result.is_ok());
    assert_eq!(PathBuf::from(result.unwrap()), PathBuf::from("."));
}

#[test]
fn args_test_validate_path_empty() {
    let result = validate_path("");
    assert!(result.is_err());
    assert!(result.unwrap_err().contains("cannot be empty"));
}

#[test]
fn test_validate_path_whitespace() {
    let result = validate_path("   ");
    assert!(result.is_err());
    assert_eq!(validate_path(" \t\n\u{a0}").unwrap_err(), "Path cannot be empty");
    assert_eq!(validate_path(" a ").unwrap(), " a ");
}

#[test]
fn args_test_run_args_default_values() {
    let cli = Cli { command: Commands::Run(RunArgs::default()) };
    match cli.command {
        Commands::Run(args) => {
            assert_eq!(args.input_paths, vec![".".to_string()]);
            assert!(args.output_path.is_some());
            assert!(!args.clipboard);
            assert!(!args.stats);
            assert!(!args.editor);
            assert!(!args.delete);
            assert!(!args.verbose);
            assert!(!args.fast_mode);
            assert!(args.skip_hidden);
            assert!(args.exclude.is_empty());
            assert_eq!(args.output_path, Some(".".to_string()));
            assert_eq!(args.root, Some(".".to_string()));
            assert!(args.raw);
        }
    }
}

#[test]
fn test_normalize_paths_current_dir() {
    let mut args = RunArgs {
        input_paths: vec![".".to_string()],
        output_path: Some(".".to_string()),
        root: Some(".".to_string()),
        exclude: vec![],
        clipboard: false,
        stats: false,
        editor: false,
        delete: false,
        verbose: false,
        skip_hidden: true,
        raw: true,
        fast_mode: false,
    };

    normalize_paths(&mut args, "/home/user/project");

    assert_ne!(PathBuf::from(&args.input_paths[0]), PathBuf::from("."));
    assert!(args.output_path.is_some());
    assert!(args.root.is_some());
    assert_eq!(args.input_paths, vec!["/home/user/project".to_string()]);
    assert_eq!(args.output_path, Some("./treeclip_temp.txt".to_string()));
    assert_eq!(args.root, Some("/home/user/project".to_string()));
}

#[test]
fn normalize_paths_keeps_what_is_written_out() {
    let mut args = RunArgs::default();
    args.input_paths = vec!["./".to_string(), "src".to_string(), "/abs".to_string()];
    args.output_path = Some("bundle.txt".to_string());
    args.root = Some("/elsewhere".to_string());
    args.exclude = vec!["target".to_string()];
    args.verbose = true;
    normalize_paths(&mut args, "/cwd");
    assert_eq!(args.input_paths, vec!["/cwd", "src", "/abs"]);
    assert_eq!(args.output_path, Some("bundle.txt".to_string()));
    assert_eq!(args.root, Some("/elsewhere".to_string()));
    assert_eq!(args.exclude, vec!["target"]);
    assert!(args.verbose && args.skip_hidden);

    let mut args = RunArgs::default();
    args.output_path = None;
    args.root = None;
    normalize_paths(&mut args, "/cwd");
    assert_eq!(args.output_path, Some("./treeclip_temp.txt".to_string()));
    assert_eq!(args.root, Some("/cwd".to_string()));
}

#[test]
fn the_current_directory_has_two_names() {
    assert!(is_current_dir("."));
    assert!(is_current_dir("./"));
    assert!(!is_current_dir(""));
    assert!(!is_current_dir(".."));
    assert!(!is_current_dir("./a"));
    assert!(!is_current_dir("/"));
}
