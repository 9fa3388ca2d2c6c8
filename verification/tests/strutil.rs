use magoo::strutil::{
    clone_opt, contains_char, ends_with, find_char, find_seq, opt_str_eq, split_once_char,
    starts_with, str_eq, strip_prefix, strip_suffix, trim,
};

#[test]
fn prefix_and_suffix() {
    assert!(starts_with("submodule.lib.path", "submodule."));
    assert!(!starts_with("sub", "submodule."));
    assert!(ends_with("lib.path", ".path"));
    assert!(!ends_with("path", ".path.more"));
    assert_eq!(
        strip_prefix("submodule.lib.path", "submodule."),
        Some("lib.path".to_string())
    );
    assert_eq!(strip_prefix("other.lib", "submodule."), None);
    assert_eq!(strip_suffix("lib.path", ".path"), Some("lib".to_string()));
    assert_eq!(strip_suffix("lib.url", ".path"), None);
    assert_eq!(strip_prefix("", ""), Some("".to_string()));
    assert_eq!(strip_suffix("x", "x"), Some("".to_string()));
}

#[test]
fn char_search() {
    assert_eq!(find_char("a b c", ' '), Some(1));
    assert_eq!(find_char("abc", ' '), None);
    assert!(contains_char("it's", '\''));
    assert!(!contains_char("its", '\''));
    assert_eq!(
        split_once_char("sha path with spaces", ' '),
        Some(("sha".to_string(), "path with spaces".to_string()))
    );
    assert_eq!(split_once_char("nospace", ' '), None);
    assert_eq!(
        split_once_char(" leading", ' '),
        Some(("".to_string(), "leading".to_string()))
    );
}

#[test]
fn substring_search() {
    assert_eq!(find_seq("2.43.0.windows.1", ".windows."), Some(6));
    assert_eq!(find_seq("2.43.0", ".windows."), None);
    assert_eq!(find_seq("abc", ""), Some(0));
    assert_eq!(find_seq("", "abc"), None);
    assert_eq!(find_seq("aab", "ab"), Some(1));
}

#[test]
fn trimming() {
    assert_eq!(trim("  git version 2.40.0\n"), "git version 2.40.0");
    assert_eq!(trim("\t\r\n "), "");
    assert_eq!(trim("inner space stays"), "inner space stays");
    assert_eq!(trim(""), "");
}

#[test]
fn string_comparisons() {
    assert!(str_eq("same", "same"));
    assert!(!str_eq("same", "Same"));
    assert!(!str_eq("short", "shorter"));
    assert!(opt_str_eq(&None, &None));
    assert!(opt_str_eq(&Some("a".to_string()), &Some("a".to_string())));
    assert!(!opt_str_eq(&Some("a".to_string()), &None));
    assert!(!opt_str_eq(&Some("a".to_string()), &Some("b".to_string())));
    assert_eq!(clone_opt(&Some("a".to_string())), Some("a".to_string()));
    assert_eq!(clone_opt(&None), None);
}
