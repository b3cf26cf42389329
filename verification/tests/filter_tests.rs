use treeclip::exclude::ExcludeMatcher;
use treeclip::filter::{admits, is_hidden, should_exclude, Entry};
use treeclip::paths::{file_name, relative_path};

fn entry(path: &str, depth: usize, is_dir: bool) -> Entry {
    Entry { path: path.to_string(), depth, is_dir, is_file: !is_dir }
}

#[test]
fn test_should_exclude() {
    let path = "/home/user/project/node_modules/package";
    let patterns = vec!["node_modules".to_string(), ".git".to_string()];

    assert!(should_exclude(path, &patterns));

    let path2 = "/home/user/project/src/main.rs";
    assert!(!should_exclude(path2, &patterns));
}

#[test]
fn test_should_exclude_case_insensitive() {
    let path = "/home/user/project/NODE_MODULES/package";
    let patterns = vec!["node_modules".to_string()];

    assert!(should_exclude(path, &patterns));
    assert!(should_exclude("/a/node_modules/b", &vec!["Node_Modules".to_string()]));
    assert!(should_exclude("/a/STRASSE", &vec!["strasse".to_string()]));
}

#[test]
fn should_exclude_edges() {
    assert!(!should_exclude("/a/b", &[]));
    assert!(should_exclude("/a/b", &vec!["".to_string()]));
    assert!(should_exclude("abc", &vec!["abc".to_string()]));
    assert!(should_exclude("xabc", &vec!["nope".to_string(), "abc".to_string()]));
    assert!(!should_exclude("ab", &vec!["abc".to_string()]));
    assert!(!should_exclude("", &vec!["a".to_string()]));
}

#[test]
fn test_is_hidden() {
    assert!(is_hidden(&entry("/tmp/work/.hidden", 1, false)));
    assert!(is_hidden(&entry(".git", 0, true)));
    assert!(is_hidden(&entry("a/.git/", 1, true)));
    assert!(is_hidden(&entry(".", 0, true)));
    assert!(!is_hidden(&entry("/tmp/.work/visible", 2, false)));
    assert!(!is_hidden(&entry("a.b", 0, false)));
    assert!(!is_hidden(&entry("", 0, false)));
    assert!(!is_hidden(&entry("/", 0, true)));
}

#[test]
fn the_filter_combines_rules_and_hidden_names() {
    let matcher = ExcludeMatcher::new("/p", None, &["target/".to_string()]).unwrap();
    assert!(admits(&entry("/p/src", 1, true), &matcher, true));
    assert!(!admits(&entry("/p/target", 1, true), &matcher, true));
    assert!(!admits(&entry("/p/target", 1, true), &matcher, false));
    assert!(admits(&entry("/p/target", 1, false), &matcher, true));
    assert!(!admits(&entry("/p/.env", 1, false), &matcher, true));
    assert!(admits(&entry("/p/.env", 1, false), &matcher, false));
}

#[test]
fn the_final_component_is_the_name() {
    assert_eq!(file_name("/a/b/c.txt"), "c.txt");
    assert_eq!(file_name("c.txt"), "c.txt");
    assert_eq!(file_name("/a/b/"), "b");
    assert_eq!(file_name("/a/b///"), "b");
    assert_eq!(file_name("/"), "");
    assert_eq!(file_name(""), "");
}

#[test]
fn paths_are_shown_from_the_root() {
    assert_eq!(relative_path("/w", "/w/a.txt"), "a.txt");
    assert_eq!(relative_path("/w", "/w/b/c.txt"), "b/c.txt");
    assert_eq!(relative_path("/w/", "/w/b/c.txt"), "b/c.txt");
    assert_eq!(relative_path("/w", "/w//b"), "b");
    assert_eq!(relative_path("/w", "/w"), "");
    assert_eq!(relative_path("/w", "/wide/a.txt"), "/wide/a.txt");
    assert_eq!(relative_path("/w", "/other/a.txt"), "/other/a.txt");
    assert_eq!(relative_path("", "/w/a.txt"), "/w/a.txt");
    assert_eq!(relative_path("/", "/w/a.txt"), "w/a.txt");
    assert_eq!(relative_path(".", "./src/a.rs"), "src/a.rs");
    assert_eq!(relative_path("/w/long", "/w"), "/w");
}
