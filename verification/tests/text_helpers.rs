use voice_vibe_local::text::{
    ascii_lowercase_chars, chars_of, concat_chars, contains_exec, decimal_chars, ends_with,
    find_exec, is_blank, join_chars, join_path_exec, replace_exec, split_lines, split_whitespace,
    starts_with, trim_chars, trim_end_matches_exec, trim_start_chars,
};

fn s(text: &str) -> Vec<char> {
    text.chars().collect()
}

fn strings(parts: Vec<Vec<char>>) -> Vec<String> {
    parts.into_iter().map(|p| p.into_iter().collect()).collect()
}

#[test]
fn trimming_follows_unicode_whitespace() {
    assert_eq!(trim_chars(&s("\u{3000} a b \n")), s("a b"));
    assert_eq!(trim_start_chars(&s("  a ")), s("a "));
    assert!(is_blank(&s(" \t\r\n")));
    assert!(!is_blank(&s(" x ")));
}

#[test]
fn words_and_lines_split_like_std() {
    assert_eq!(strings(split_whitespace(&s("  one  two\tthree "))), vec!["one", "two", "three"]);
    assert_eq!(strings(split_lines(&s("a\r\nb\n\nc\n"))), vec!["a", "b", "", "c"]);
    assert_eq!(strings(split_lines(&s(""))), Vec::<String>::new());
    assert_eq!(strings(split_lines(&s("x\r"))), vec!["x\r"]);
}

#[test]
fn searching_and_replacing_substrings() {
    assert_eq!(find_exec(&s("abcabc"), &s("ca"), 0), Some(2));
    assert_eq!(find_exec(&s("abcabc"), &s("ca"), 3), None);
    assert!(contains_exec(&s("hello"), &s("ll")));
    assert!(starts_with(&s("hello"), &s("he")) && ends_with(&s("hello"), &s("lo")));
    assert_eq!(replace_exec(&s("a\r\nb\r\n"), &s("\r\n"), &s("\n")), s("a\nb\n"));
    assert_eq!(trim_end_matches_exec(&s("a///"), &s("/")), s("a"));
}

#[test]
fn joining_numbers_and_case() {
    assert_eq!(join_chars(&vec![s("a"), s("b"), s("c")], &s(", ")), s("a, b, c"));
    assert_eq!(concat_chars(&['a'], &['b', 'c']), vec!['a', 'b', 'c']);
    assert_eq!(decimal_chars(0), s("0"));
    assert_eq!(decimal_chars(907), s("907"));
    assert_eq!(ascii_lowercase_chars(&s("MiXeD Ä")), s("mixed Ä"));
    assert_eq!(chars_of("né"), vec!['n', 'é']);
    assert_eq!(join_path_exec("/a/", &s("b")), "/a/b");
    assert_eq!(join_path_exec("", &s("b")), "b");
}
