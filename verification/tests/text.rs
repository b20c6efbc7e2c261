use posts_api::utils::text::{
    chars_of, contains_text, find_in, fold_char, fold_text, matches_at, starts_with, text_from,
};

fn chars(text: &str) -> Vec<char> {
    text.chars().collect()
}

#[test]
fn capital_letters_are_folded() {
    assert_eq!(fold_char('A'), 'a');
    assert_eq!(fold_char('H'), 'h');
    assert_eq!(fold_char('Z'), 'z');
}

#[test]
fn what_has_no_upper_case_stands_for_itself() {
    for c in ['a', 'z', '0', '9', ' ', '%', '_', '\\', '@', '[', '`', '{', 'é', 'ß', '日'] {
        assert_eq!(fold_char(c), c);
    }
}

#[test]
fn letters_of_every_script_are_folded() {
    assert_eq!(fold_char('É'), 'é');
    assert_eq!(fold_char('Ü'), 'ü');
    assert_eq!(fold_char('Σ'), 'σ');
    assert_eq!(fold_char('Ж'), 'ж');
    assert_eq!(fold_char('\u{212A}'), 'k');
}

#[test]
fn a_letter_whose_lower_case_is_longer_stands_for_itself() {
    assert_eq!('\u{130}'.to_lowercase().count(), 2);
    assert_eq!(fold_char('\u{130}'), '\u{130}');
}

#[test]
fn folding_agrees_with_the_lower_case_mapping_of_single_characters() {
    for code in 0u32..0x3000 {
        if let Some(c) = char::from_u32(code) {
            let lower: Vec<char> = c.to_lowercase().collect();
            let expected = if lower.len() == 1 { lower[0] } else { c };
            assert_eq!(fold_char(c), expected, "for {:?}", c);
        }
    }
}

#[test]
fn folding_agrees_with_ascii_lowercase_on_ascii() {
    for code in 0u32..128 {
        let c = char::from_u32(code).unwrap();
        assert_eq!(fold_char(c), c.to_ascii_lowercase());
    }
}

#[test]
fn a_text_is_folded_character_by_character() {
    assert_eq!(fold_text("Saying HELLO today"), chars("saying hello today"));
    assert_eq!(fold_text(""), chars(""));
    assert_eq!(fold_text("ÉCOLE 42"), chars("école 42"));
    assert_eq!(fold_text("100%_\\"), chars("100%_\\"));
}

#[test]
fn hello_is_found_in_saying_hello_today() {
    assert!(contains_text("Saying HELLO today", "hello"));
    assert!(contains_text("saying hello today", "HELLO"));
    assert!(contains_text("Saying HELLO today", "HeLLo T"));
}

#[test]
fn case_is_disregarded_outside_ascii_too() {
    assert!(contains_text("Une École à Paris", "école"));
    assert!(contains_text("une école à paris", "ÉCOLE À"));
    assert!(contains_text("ΟΔΟΣ", "οδοσ"));
    assert!(!contains_text("Une École à Paris", "ecole"));
}

#[test]
fn what_is_not_there_is_not_found() {
    assert!(!contains_text("Saying HELLO today", "help"));
    assert!(!contains_text("Saying HELLO today", "todayy"));
    assert!(!contains_text("", "a"));
    assert!(!contains_text("abc", "abcd"));
}

#[test]
fn the_empty_text_is_found_everywhere() {
    assert!(contains_text("", ""));
    assert!(contains_text("abc", ""));
}

#[test]
fn a_text_is_found_at_either_end() {
    assert!(contains_text("hello", "hello"));
    assert!(contains_text("hello world", "HELLO"));
    assert!(contains_text("hello world", "WORLD"));
    assert!(contains_text("aab", "ab"));
}

#[test]
fn search_tries_every_offset() {
    assert!(find_in(&chars("aaab"), &chars("aab")));
    assert!(find_in(&chars("abababc"), &chars("ababc")));
    assert!(!find_in(&chars("abababab"), &chars("ababc")));
    assert!(!find_in(&chars("Hello"), &chars("hello")));
}

#[test]
fn a_stretch_is_compared_in_place() {
    assert!(matches_at(&chars("hello world"), &chars("world"), 6));
    assert!(!matches_at(&chars("hello world"), &chars("world"), 5));
    assert!(matches_at(&chars("hello"), &chars(""), 5));
}

#[test]
fn characters_come_out_in_order() {
    assert_eq!(chars_of("a/é日"), vec!['a', '/', 'é', '日']);
    assert_eq!(chars_of(""), Vec::<char>::new());
}

#[test]
fn a_prefix_is_recognised() {
    assert!(starts_with(&chars("/v1/posts/1"), &chars("/v1/posts")));
    assert!(starts_with(&chars("/v1/posts"), &chars("/v1/posts")));
    assert!(starts_with(&chars("abc"), &chars("")));
    assert!(!starts_with(&chars("/v1/post"), &chars("/v1/posts")));
    assert!(!starts_with(&chars("/v2/posts"), &chars("/v1/posts")));
}

#[test]
fn the_rest_of_a_text_is_cut_off() {
    assert_eq!(text_from(&chars("/v1/posts/abc"), 10), "abc");
    assert_eq!(text_from(&chars("abc"), 3), "");
    assert_eq!(text_from(&chars("aé日"), 1), "é日");
}
