use pubmed_pipeline::text::{
    chars_contain, decimal_len, eq_trimmed, is_white_space_char, push_decimal, push_zero_padded,
    remove_char, str_eq, to_chars, trim_chars,
};

fn contains(hay: &str, needle: &str) -> bool {
    chars_contain(&to_chars(hay), &to_chars(needle))
}

fn decimal_string(n: u64) -> String {
    let mut s = String::new();
    push_decimal(&mut s, n);
    s
}

#[test]
fn contains_finds_a_word_inside_a_sentence() {
    assert!(contains("lung cancer screening", "cancer"));
    assert!(contains("cancer", "cancer"));
    assert!(contains("a tumor", "tumor"));
    assert!(!contains("lung screening", "cancer"));
    assert!(!contains("cance", "cancer"));
}

#[test]
fn contains_handles_empty_texts() {
    assert!(contains("anything", ""));
    assert!(contains("", ""));
    assert!(!contains("", "x"));
}

#[test]
fn contains_is_case_sensitive() {
    assert!(!contains("Cancer", "cancer"));
    assert!(!contains("TUMOR", "tumor"));
}

#[test]
fn contains_works_on_characters_beyond_ascii() {
    assert!(contains("étude du cancer", "cancer"));
    assert!(contains("naïve tumor", "ïve t"));
    assert!(!contains("naïve", "nai"));
}

#[test]
fn chars_contain_finds_a_run_at_either_end() {
    let hay = to_chars("oncology today");
    assert!(chars_contain(&hay, &to_chars("oncology")));
    assert!(chars_contain(&hay, &to_chars("today")));
    assert!(!chars_contain(&hay, &to_chars("todays")));
    assert!(!chars_contain(&hay, &to_chars("oncology today and more")));
}

#[test]
fn to_chars_lists_the_characters() {
    assert_eq!(to_chars("aé1"), vec!['a', 'é', '1']);
    assert_eq!(to_chars(""), Vec::<char>::new());
}

#[test]
fn str_eq_compares_character_by_character() {
    assert!(str_eq("ArticleTitle", "ArticleTitle"));
    assert!(str_eq("", ""));
    assert!(!str_eq("ArticleTitle", "ArticleTitlе"));
    assert!(!str_eq("doi", "do"));
    assert!(!str_eq("doi", "dOi"));
}

#[test]
fn push_decimal_renders_numbers() {
    assert_eq!(decimal_string(0), "0");
    assert_eq!(decimal_string(7), "7");
    assert_eq!(decimal_string(10), "10");
    assert_eq!(decimal_string(1219), "1219");
    assert_eq!(decimal_string(u64::MAX), "18446744073709551615");
}

#[test]
fn decimal_len_counts_digits() {
    assert_eq!(decimal_len(0), 1);
    assert_eq!(decimal_len(9), 1);
    assert_eq!(decimal_len(10), 2);
    assert_eq!(decimal_len(99999), 5);
    assert_eq!(decimal_len(u64::MAX), 20);
}

#[test]
fn push_decimal_appends_to_what_is_there() {
    let mut s = String::from("dir");
    push_decimal(&mut s, 42);
    assert_eq!(s, "dir42");
}

#[test]
fn push_zero_padded_fills_up_to_the_width() {
    let mut s = String::new();
    push_zero_padded(&mut s, 7, 4);
    assert_eq!(s, "0007");
    let mut s = String::new();
    push_zero_padded(&mut s, 0, 4);
    assert_eq!(s, "0000");
    let mut s = String::new();
    push_zero_padded(&mut s, 1219, 4);
    assert_eq!(s, "1219");
}

#[test]
fn push_zero_padded_leaves_long_numbers_alone() {
    let mut s = String::from("n");
    push_zero_padded(&mut s, 12345, 4);
    assert_eq!(s, "n12345");
    let mut s = String::new();
    push_zero_padded(&mut s, 5, 0);
    assert_eq!(s, "5");
}

#[test]
fn trim_chars_removes_white_space_at_both_ends() {
    assert_eq!(trim_chars(&to_chars("  a b \n")), to_chars("a b"));
    assert_eq!(trim_chars(&to_chars("\t\n ")), Vec::<char>::new());
    assert_eq!(trim_chars(&to_chars("")), Vec::<char>::new());
    assert_eq!(trim_chars(&to_chars("x")), vec!['x']);
    assert_eq!(trim_chars(&to_chars("\u{a0}x\u{2003}")), vec!['x']);
}

#[test]
fn eq_trimmed_ignores_surrounding_white_space() {
    assert!(eq_trimmed("  abc\n", "abc"));
    assert!(eq_trimmed("abc", "\tabc  "));
    assert!(eq_trimmed("   ", ""));
    assert!(!eq_trimmed("a bc", "abc"));
    assert!(!eq_trimmed("abc", "abd"));
    assert!(!eq_trimmed("abc", "ab"));
}

#[test]
fn remove_char_drops_every_occurrence() {
    assert_eq!(remove_char("/tmp/.dir0.abc", '.'), "/tmp/dir0abc");
    assert_eq!(remove_char("...", '.'), "");
    assert_eq!(remove_char("plain", '.'), "plain");
    assert_eq!(remove_char("", '.'), "");
}

#[test]
fn remove_char_keeps_characters_beyond_ascii() {
    assert_eq!(remove_char("é.ü.", '.'), "éü");
    assert_eq!(remove_char("aéa", 'é'), "aa");
}

#[test]
fn white_space_is_what_the_standard_library_calls_white_space() {
    for code in 0..=0x10FFFFu32 {
        if let Some(c) = char::from_u32(code) {
            assert_eq!(is_white_space_char(c), c.is_whitespace(), "U+{:04X}", code);
        }
    }
}

#[test]
fn trim_chars_agrees_with_the_standard_library() {
    for text in ["", " ", "a", " a", "a ", "\n\ta b\r\n", "\u{3000}x\u{85}", "x\u{200b}"] {
        let trimmed: String = trim_chars(&to_chars(text)).into_iter().collect();
        assert_eq!(trimmed, text.trim());
    }
}
