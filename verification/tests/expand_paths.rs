//! Path expansion: backslash-escape detection, and `~` and `$VARIABLE`
//! substitution with the environment handed in as name-value pairs.

use mpdris::expand::{expand_path, is_char_escaped, is_valid_varname_char};

fn env_of(pairs: &[(&str, &str)]) -> Vec<(String, String)> {
    pairs
        .iter()
        .map(|(k, v)| (String::from(*k), String::from(*v)))
        .collect()
}

fn expand(path: &str) -> String {
    let env = env_of(&[("HOME", "/home/repeatable"), ("SOME_VAR", "relative")]);
    expand_path(path, "/home/repeatable", &env)
}

#[test]
fn test_escaped_char() {
    assert!(is_char_escaped(r"pr\\efi\x\".as_bytes()));
    assert!(is_char_escaped(r"\".as_bytes()));
    assert!(is_char_escaped(r"\postfix\".as_bytes()));
    assert!(is_char_escaped(r"\\postfix\".as_bytes()));
    assert!(!is_char_escaped(r"\postfix".as_bytes()));
    assert!(!is_char_escaped(r"\\".as_bytes()));
    assert!(!is_char_escaped(r"\\\\".as_bytes()));
    assert!(!is_char_escaped(r"\\middle\\".as_bytes()));
    assert!(!is_char_escaped(r"\\middle\f\\\\".as_bytes()));
    assert!(!is_char_escaped(&[]));
}

#[test]
fn test_unset_expansion() {
    assert_eq!(expand("some/path"), "some/path");
    assert_eq!(expand("$UNSET_VAR/some/path"), "$UNSET_VAR/some/path");
    assert_eq!(expand("/some/$UNSET_VAR/path"), "/some/$UNSET_VAR/path");
    assert_eq!(expand("/some/path/$UNSET_VAR"), "/some/path/$UNSET_VAR");
    assert_eq!(expand("/some/path$"), "/some/path$");
    assert_eq!(expand("$/some/path"), "$/some/path");
    assert_eq!(expand("$"), "$");
}

#[test]
fn test_expansion() {
    assert_eq!(expand("~"), "/home/repeatable");
    assert_eq!(expand("~/"), "/home/repeatable/");
    assert_eq!(expand("/some/file/path/~/"), "/some/file/path/~/");
    assert_eq!(expand("~/some/dir/names"), "/home/repeatable/some/dir/names");
    assert_eq!(expand("~/ continue"), "/home/repeatable/ continue");
    assert_eq!(expand("~$UNSET_VAR"), "~$UNSET_VAR");
    assert_eq!(expand("~abcdef"), "~abcdef");
    assert_eq!(expand("~~"), "~~");
    assert_eq!(expand("~_"), "~_");

    assert_eq!(expand("$HOME"), "/home/repeatable");
    assert_eq!(expand("$HOME-"), "/home/repeatable-");
    assert_eq!(expand("$HOME_/path"), "$HOME_/path");
    assert_eq!(expand("$HOME/$SOME_VAR/dir"), "/home/repeatable/relative/dir");
    assert_eq!(expand("$SOME_VAR/"), "relative/");
    assert_eq!(
        expand("/some/path/$SOME_VAR-SOME_VAR"),
        "/some/path/relative-SOME_VAR"
    );
    assert_eq!(expand(r"/some/path/\$HOME"), r"/some/path/\$HOME");
    assert_eq!(expand("/some/path/$HOME_HOME"), "/some/path/$HOME_HOME");
}

#[test]
fn test_varname_chars() {
    assert!(is_valid_varname_char('a'));
    assert!(is_valid_varname_char('Z'));
    assert!(is_valid_varname_char('0'));
    assert!(is_valid_varname_char('_'));
    assert!(!is_valid_varname_char('-'));
    assert!(!is_valid_varname_char('/'));
    assert!(!is_valid_varname_char('$'));
}
