use treeclip::errors::PatternError;
use treeclip::exclude::{read_ignore_lines, ExcludeMatcher};

#[test]
fn test_exclude_matcher_creation() {
    let matcher = ExcludeMatcher::new("/tmp/project", None, &[]).unwrap();

    // Should not exclude root
    assert!(!matcher.is_excluded("/tmp/project", true));
}

#[test]
fn test_is_excluded() {
    let matcher = ExcludeMatcher::new("/tmp/project", Some("node_modules"), &[]).unwrap();

    assert!(!matcher.is_excluded("/tmp/project", true));
    assert!(!matcher.is_excluded("/tmp/project/temp1", false));
    assert!(!matcher.is_excluded("/tmp/project/temp2", false));
    assert!(matcher.is_excluded("/tmp/project/node_modules", true));
}

#[test]
fn test_is_excluded_with_ignore_file() {
    let matcher = ExcludeMatcher::new("/tmp/project", Some("node_modules"), &[]).unwrap();

    // Regular files should not be excluded
    assert!(!matcher.is_excluded("/tmp/project", true));
    assert!(!matcher.is_excluded("/tmp/project/temp1.txt", false));
    assert!(!matcher.is_excluded("/tmp/project/temp2.txt", false));

    // node_modules should be excluded
    assert!(matcher.is_excluded("/tmp/project/node_modules", true));
}

#[test]
fn test_is_excluded_with_cli_patterns() {
    let matcher = ExcludeMatcher::new("/tmp/project", None, &["target".to_string()]).unwrap();

    // src should not be excluded
    assert!(!matcher.is_excluded("/tmp/project/src", true));

    // target should be excluded (CLI pattern)
    assert!(matcher.is_excluded("/tmp/project/target", true));
}

#[test]
fn test_is_excluded_with_multiple_patterns() {
    let matcher =
        ExcludeMatcher::new("/tmp/project", Some("node_modules"), &["target".to_string()]).unwrap();

    // src should not be excluded
    assert!(!matcher.is_excluded("/tmp/project/src", true));

    // Both node_modules and target should be excluded
    assert!(matcher.is_excluded("/tmp/project/node_modules", true));
    assert!(matcher.is_excluded("/tmp/project/target", true));
}

#[test]
fn test_invalid_pattern_error() {
    // Try to use an invalid glob pattern
    // Note: Most patterns are valid in gitignore, so this might not fail
    // This test ensures error handling works if it does fail
    let result = ExcludeMatcher::new("/tmp/project", None, &["[invalid".to_string()]);

    // If it fails, should have context
    if let Err(e) = result {
        let error_msg = format!("{:?}", e);
        assert!(
            error_msg.contains("pattern") || error_msg.contains("Invalid"),
            "Error should have context: {}",
            error_msg
        );
    }
}

#[test]
fn test_multiple_cli_patterns() {
    let patterns = vec!["*.log".to_string(), "target".to_string(), "node_modules".to_string()];

    let matcher = ExcludeMatcher::new("/tmp/project", None, &patterns).unwrap();

    // .log files should be excluded
    assert!(matcher.is_excluded("/tmp/project/test.log", false));

    // .rs files should not be excluded
    assert!(!matcher.is_excluded("/tmp/project/test.rs", false));
}

#[test]
fn negation_overrides_an_earlier_rule() {
    let patterns = vec!["foo/*".to_string(), "!foo/keep.txt".to_string()];
    let matcher = ExcludeMatcher::new("/proj", None, &patterns).unwrap();
    assert!(!matcher.is_excluded("/proj/foo/keep.txt", false));
    assert!(matcher.is_excluded("/proj/foo/other.txt", false));
    assert!(matcher.is_excluded("/proj/foo/more.rs", false));
    assert!(!matcher.is_excluded("/proj/bar/other.txt", false));
}

#[test]
fn request_patterns_come_after_the_ignore_file() {
    // the file excludes, the request re-includes: the later rule wins
    let matcher =
        ExcludeMatcher::new("/proj", Some("*.log\n"), &["!keep.log".to_string()]).unwrap();
    assert!(matcher.is_excluded("/proj/a.log", false));
    assert!(!matcher.is_excluded("/proj/keep.log", false));

    // the other way round: the file re-includes, the request excludes again
    let matcher =
        ExcludeMatcher::new("/proj", Some("!keep.log\n"), &["*.log".to_string()]).unwrap();
    assert!(matcher.is_excluded("/proj/keep.log", false));
}

#[test]
fn a_rule_that_ends_in_a_slash_matches_directories_only() {
    let matcher = ExcludeMatcher::new("/proj", None, &["target/".to_string()]).unwrap();
    assert!(matcher.is_excluded("/proj/target", true));
    assert!(!matcher.is_excluded("/proj/target", false));
}

#[test]
fn comments_and_blank_lines_state_no_rule() {
    let text = "# build output\n\ntarget\n   \n#*.rs\n";
    let matcher = ExcludeMatcher::new("/proj", Some(text), &[]).unwrap();
    assert!(matcher.is_excluded("/proj/target", true));
    assert!(!matcher.is_excluded("/proj/main.rs", false));
}

#[test]
fn double_star_matches_across_directories() {
    let matcher = ExcludeMatcher::new("/proj", None, &["**/gen/*.rs".to_string()]).unwrap();
    assert!(matcher.is_excluded("/proj/a/b/gen/x.rs", false));
    assert!(!matcher.is_excluded("/proj/a/b/src/x.rs", false));
}

#[test]
fn an_invalid_pattern_is_reported_with_its_position() {
    let patterns = vec!["ok".to_string(), "{a,b".to_string(), "later".to_string()];
    match ExcludeMatcher::new("/proj", Some("first\nsecond\n"), &patterns) {
        Err(PatternError::InvalidPattern { pattern, index, .. }) => {
            assert_eq!(pattern, "{a,b");
            assert_eq!(index, 3);
        }
        Err(other) => panic!("unexpected error: {:?}", other),
        Ok(_) => panic!("the pattern should not compile"),
    }
}

#[test]
fn an_invalid_line_of_the_ignore_file_is_reported() {
    match ExcludeMatcher::new("/proj", Some("fine\n[z-a]\n"), &[]) {
        Err(PatternError::InvalidPattern { pattern, index, .. }) => {
            assert_eq!(pattern, "[z-a]");
            assert_eq!(index, 1);
            assert_eq!(
                PatternError::InvalidPattern {
                    pattern: "[z-a]".to_string(),
                    index: 1,
                    source: ignore::Error::InvalidDefinition
                }
                .message(),
                "Invalid exclusion pattern: [z-a]"
            );
        }
        Err(other) => panic!("unexpected error: {:?}", other),
        Ok(_) => panic!("the line should not compile"),
    }
}

#[test]
fn building_twice_gives_the_same_answers() {
    let patterns = vec!["*.tmp".to_string(), "!keep.tmp".to_string(), "build/".to_string()];
    let first = ExcludeMatcher::new("/proj", Some("node_modules\n"), &patterns).unwrap();
    let second = ExcludeMatcher::new("/proj", Some("node_modules\n"), &patterns).unwrap();
    let paths = [
        ("/proj/a.tmp", false),
        ("/proj/keep.tmp", false),
        ("/proj/build", true),
        ("/proj/build", false),
        ("/proj/node_modules", true),
        ("/proj/src/main.rs", false),
        ("elsewhere/x.tmp", false),
    ];
    for (path, is_dir) in paths {
        assert_eq!(first.is_excluded(path, is_dir), second.is_excluded(path, is_dir));
    }
    assert!(first.is_excluded("/proj/a.tmp", false));
    assert!(!first.is_excluded("/proj/keep.tmp", false));
}

#[test]
fn ignore_file_lines_are_split_as_lines_of_text() {
    assert_eq!(read_ignore_lines(""), Vec::<String>::new());
    assert_eq!(read_ignore_lines("a"), vec!["a"]);
    assert_eq!(read_ignore_lines("a\n"), vec!["a"]);
    assert_eq!(read_ignore_lines("a\nb"), vec!["a", "b"]);
    assert_eq!(read_ignore_lines("a\r\nb\r\n"), vec!["a", "b"]);
    assert_eq!(read_ignore_lines("a\n\nb\n"), vec!["a", "", "b"]);
    assert_eq!(read_ignore_lines("\n"), vec![""]);
    assert_eq!(read_ignore_lines("a\rb\n"), vec!["a\rb"]);
    assert_eq!(read_ignore_lines("a\r"), vec!["a\r"]);
}

#[test]
fn a_byte_order_mark_is_dropped_from_the_first_line_only() {
    assert_eq!(read_ignore_lines("\u{feff}target\n\u{feff}x\n"), vec!["target", "\u{feff}x"]);
    assert_eq!(read_ignore_lines("\u{feff}\u{feff}a"), vec!["a"]);
    let matcher = ExcludeMatcher::new("/proj", Some("\u{feff}target\n"), &[]).unwrap();
    assert!(matcher.is_excluded("/proj/target", true));
}
