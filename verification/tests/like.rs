use posts_api::infra::db::like::{ilike_text, like_chars, like_pattern};

fn chars(text: &str) -> Vec<char> {
    text.chars().collect()
}

fn like(pattern: &str, text: &str) -> bool {
    like_chars(&chars(pattern), &chars(text))
}

#[test]
fn a_search_text_is_put_between_percent_signs() {
    assert_eq!(like_pattern("hello"), "%hello%");
    assert_eq!(like_pattern(""), "%%");
    assert_eq!(like_pattern("Saying HELLO"), "%Saying HELLO%");
}

#[test]
fn special_characters_are_escaped() {
    assert_eq!(like_pattern("100%"), "%100\\%%");
    assert_eq!(like_pattern("a_b"), "%a\\_b%");
    assert_eq!(like_pattern("c:\\dir"), "%c:\\\\dir%");
    assert_eq!(like_pattern("%_\\"), "%\\%\\_\\\\%");
}

#[test]
fn a_pattern_without_wildcards_matches_itself_only() {
    assert!(like("abc", "abc"));
    assert!(!like("abc", "abcd"));
    assert!(!like("abc", "ab"));
    assert!(!like("abc", "xabc"));
    assert!(like("", ""));
    assert!(!like("", "a"));
}

#[test]
fn percent_stands_for_any_stretch() {
    assert!(like("%", ""));
    assert!(like("%", "anything"));
    assert!(like("a%", "a"));
    assert!(like("a%", "abc"));
    assert!(!like("a%", "ba"));
    assert!(like("%c", "abc"));
    assert!(like("a%c", "abbbc"));
    assert!(like("a%c", "ac"));
    assert!(!like("a%c", "abcd"));
    assert!(like("%a%b%", "xxaxxbxx"));
    assert!(!like("%a%b%", "xxbxxaxx"));
    assert!(like("%%", "x"));
}

#[test]
fn underscore_stands_for_one_character() {
    assert!(like("_", "x"));
    assert!(!like("_", ""));
    assert!(!like("_", "xy"));
    assert!(like("a_c", "abc"));
    assert!(like("a_c", "a日c"));
    assert!(!like("a_c", "ac"));
    assert!(like("__", "ab"));
}

#[test]
fn a_backslash_takes_the_next_character_literally() {
    assert!(like("100\\%", "100%"));
    assert!(!like("100\\%", "1000"));
    assert!(like("a\\_b", "a_b"));
    assert!(!like("a\\_b", "axb"));
    assert!(like("a\\\\b", "a\\b"));
    assert!(like("\\a", "a"));
}

#[test]
fn a_pattern_that_ends_in_a_lone_backslash_matches_nothing() {
    assert!(!like("abc\\", "abc"));
    assert!(!like("abc\\", "abc\\"));
    assert!(!like("\\", ""));
    assert!(!like("\\", "\\"));
}

#[test]
fn an_escaped_backslash_may_stand_before_a_wildcard() {
    assert!(like("a\\\\%", "a\\"));
    assert!(like("a\\\\%", "a\\bc"));
    assert!(!like("a\\\\%", "a%"));
    assert!(like("\\\\_", "\\x"));
    assert!(!like("\\\\_", "_"));
}

#[test]
fn many_wildcards_are_matched_without_backtracking_forever() {
    let pattern = "%a%a%a%a%a%a%a%a%a%a%a%a%a%a%a%a%b";
    let text = "a".repeat(400);
    assert!(!like(pattern, &text));
    let mut closed = text.clone();
    closed.push('b');
    assert!(like(pattern, &closed));
}

#[test]
fn matching_agrees_with_a_search_by_hand() {
    fn by_hand(pattern: &[char], text: &[char]) -> bool {
        match pattern.split_first() {
            None => text.is_empty(),
            Some((&'%', rest)) => (0..=text.len()).any(|k| by_hand(rest, &text[k..])),
            Some((&'_', rest)) => !text.is_empty() && by_hand(rest, &text[1..]),
            Some((&'\\', rest)) => match rest.split_first() {
                None => false,
                Some((c, rest)) => text.first() == Some(c) && by_hand(rest, &text[1..]),
            },
            Some((c, rest)) => text.first() == Some(c) && by_hand(rest, &text[1..]),
        }
    }
    let alphabet = ['a', 'b', '%', '_', '\\'];
    let mut patterns: Vec<Vec<char>> = vec![vec![]];
    for _ in 0..4 {
        let mut longer = Vec::new();
        for p in &patterns {
            for c in alphabet {
                let mut q = p.clone();
                q.push(c);
                longer.push(q);
            }
        }
        patterns.extend(longer);
        patterns.sort();
        patterns.dedup();
    }
    let texts = ["", "a", "b", "ab", "ba", "aab", "abab", "%", "a%", "_", "\\", "a\\b", "bbb"];
    for pattern in &patterns {
        for text in texts {
            let text: Vec<char> = text.chars().collect();
            assert_eq!(
                like_chars(pattern, &text),
                by_hand(pattern, &text),
                "pattern {:?}, text {:?}",
                pattern,
                text
            );
        }
    }
}

#[test]
fn ilike_disregards_case_on_both_sides() {
    assert!(ilike_text("%hello%", "Saying HELLO today"));
    assert!(ilike_text("%HELLO%", "saying hello today"));
    assert!(ilike_text("SAYING%", "Saying HELLO today"));
    assert!(!ilike_text("%hello", "Saying HELLO today"));
    assert!(ilike_text("_ELLO", "hello"));
    assert!(ilike_text("%ÉCOLE%", "une école"));
    assert!(ilike_text("é%", "École"));
    assert!(!ilike_text("e%", "École"));
}

#[test]
fn the_pattern_for_a_text_matches_the_titles_that_contain_it() {
    let titles = ["Saying HELLO today", "100% sure", "1000 things", "a_b", "axb", "", "back\\slash"];
    let needles = ["hello", "100%", "a_b", "", "\\", "%", "_", "sure", "SLASH", "000"];
    for needle in needles {
        let pattern = like_pattern(needle);
        for title in titles {
            let expected = title.to_ascii_lowercase().contains(&needle.to_ascii_lowercase());
            assert_eq!(
                ilike_text(&pattern, title),
                expected,
                "needle {:?}, title {:?}",
                needle,
                title
            );
        }
    }
}
