use cref::text::{chars_of, contains_exec, path_join_exec, push_i32_decimal, push_u64_decimal,
    replace_char_exec};

#[test]
fn decimal_numerals() {
    let mut s = String::from("n=");
    push_i32_decimal(&mut s, -305);
    assert_eq!(s, "n=-305");
    let mut s = String::new();
    push_i32_decimal(&mut s, 0);
    assert_eq!(s, "0");
    let mut s = String::new();
    push_u64_decimal(&mut s, u64::MAX);
    assert_eq!(s, "18446744073709551615");
    let mut s = String::new();
    push_u64_decimal(&mut s, 10);
    assert_eq!(s, "10");
}

#[test]
fn replacing_characters() {
    assert_eq!(replace_char_exec("a\nb\n", '\n', " "), "a b ");
    assert_eq!(replace_char_exec("it's", '\'', ""), "its");
    assert_eq!(replace_char_exec("x", 'x', "yy"), "yy");
    assert_eq!(replace_char_exec("", 'x', "y"), "");
}

#[test]
fn substring_search() {
    assert!(contains_exec("Fix typo in README", "typo"));
    assert!(contains_exec("Fix typo in README", ""));
    assert!(contains_exec("", ""));
    assert!(!contains_exec("", "a"));
    assert!(!contains_exec("Fix typo", "Typo"));
    assert!(contains_exec("abcabd", "abd"));
    assert!(!contains_exec("ab", "abc"));
    assert!(contains_exec("überall", "ber"));
}

#[test]
fn joining_paths() {
    assert_eq!(path_join_exec("/home/me", ".cref"), "/home/me/.cref");
    assert_eq!(path_join_exec("/home/me/", ".cref"), "/home/me/.cref");
    assert_eq!(path_join_exec("", ".cref"), ".cref");
    assert_eq!(path_join_exec("/", "x"), "/x");
}

#[test]
fn characters_of_a_text() {
    assert_eq!(chars_of("añb"), vec!['a', 'ñ', 'b']);
    assert!(chars_of("").is_empty());
}
