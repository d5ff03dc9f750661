use tw_rs::text::{
    ascii_lowercase_exec, bool_to_string, chars_of, i64_to_string, lines_of, parse_usize, sort_texts,
    string_of, text_lt_exec, trim_chars, u64_to_string, words_of,
};

fn texts(v: &[Vec<char>]) -> Vec<String> {
    v.iter().map(|c| c.iter().collect()).collect()
}

#[test]
fn decimal_text_of_integers() {
    assert_eq!(u64_to_string(0), "0");
    assert_eq!(u64_to_string(18446744073709551615), "18446744073709551615");
    assert_eq!(i64_to_string(-42), "-42");
    assert_eq!(i64_to_string(i64::MIN), "-9223372036854775808");
    assert_eq!(bool_to_string(true), "true");
}

#[test]
fn usize_parse_roundtrip() {
    assert_eq!(parse_usize("0"), Some(0));
    assert_eq!(parse_usize("+17"), Some(17));
    assert_eq!(parse_usize(&u64_to_string(123456789)), Some(123456789));
    assert_eq!(parse_usize(""), None);
    assert_eq!(parse_usize("-1"), None);
    assert_eq!(parse_usize("1x"), None);
    assert_eq!(parse_usize("99999999999999999999999"), None);
}

#[test]
fn lines_follow_str_lines() {
    let l = lines_of(&chars_of("a\r\nb\n\nc"));
    assert_eq!(texts(&l), vec!["a", "b", "", "c"]);
    let l = lines_of(&chars_of("x\n"));
    assert_eq!(texts(&l), vec!["x"]);
    assert!(lines_of(&chars_of("")).is_empty());
}

#[test]
fn words_and_trim() {
    let w = words_of(&chars_of("  100644 blob\tabc  "));
    assert_eq!(texts(&w), vec!["100644", "blob", "abc"]);
    assert_eq!(string_of(&trim_chars(&chars_of(" \t hi there \n"))), "hi there");
    assert_eq!(string_of(&ascii_lowercase_exec(&chars_of("HeLLo-Ä"))), "hello-Ä");
}

#[test]
fn text_order_is_str_order() {
    assert!(text_lt_exec(&chars_of("a"), &chars_of("b")));
    assert!(text_lt_exec(&chars_of("ab"), &chars_of("abc")));
    assert!(!text_lt_exec(&chars_of("abc"), &chars_of("abc")));
    assert!(text_lt_exec(&chars_of("Z"), &chars_of("a")));
    assert!(text_lt_exec(&chars_of("z"), &chars_of("é")));
}

#[test]
fn sorting_texts_matches_std_sort() {
    let input: Vec<Vec<char>> = ["src/main.rs", "Cargo.toml", "src/lib.rs", "README", "src", "é", "Cargo.toml"]
        .iter()
        .map(|s| chars_of(s))
        .collect();
    let sorted = texts(&sort_texts(&input));
    let mut expected: Vec<String> = texts(&input);
    expected.sort();
    assert_eq!(sorted, expected);
}
