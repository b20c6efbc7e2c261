//! Text as sequences of characters: appending, disregarding the case of
//! letters, and searching.

use vstd::prelude::*;

verus! {

broadcast use vstd::string::group_string_axioms;

/// `String::push` appends one character to the end of the string.
pub assume_specification[ String::push ](text: &mut String, ch: char)
    ensures
        final(text)@ == old(text)@.push(ch),
;

/// The lower-case mapping of a character: one character or more, the
/// character itself where it has no lower case.
pub uninterp spec fn lowercase(c: char) -> Seq<char>;

/// Maps a character to lower case with `char::to_lowercase`, which follows
/// the Unicode tables and no locale, and hands out the one or more characters
/// that it yields. The contract only names the result.
#[verifier::external_body]
fn lower_char(c: char) -> (lower: Vec<char>)
    ensures
        lower@ == lowercase(c),
{
    c.to_lowercase().collect()
}

/// Whether a character has a meaning of its own inside a pattern: the two
/// wildcards and the escape character.
pub open spec fn is_special(c: char) -> bool {
    c == '%' || c == '_' || c == '\\'
}

/// A character with its case disregarded: its lower-case mapping where that
/// is a single character, the character itself where the mapping is longer.
/// The characters with a meaning of their own inside a pattern have no case:
/// they stand for themselves and nothing else is folded to one of them, so
/// that disregarding case never changes what a pattern means.
pub open spec fn fold(c: char) -> char {
    if !is_special(c) && lowercase(c).len() == 1 && !is_special(lowercase(c)[0]) {
        lowercase(c)[0]
    } else {
        c
    }
}

/// A text with the case of its letters disregarded.
pub open spec fn folded(text: Seq<char>) -> Seq<char> {
    Seq::new(text.len(), |i: int| fold(text[i]))
}

/// Whether `needle` stands in `text` at offset `at`.
pub open spec fn occurs_at(text: Seq<char>, needle: Seq<char>, at: int) -> bool {
    &&& 0 <= at
    &&& at + needle.len() <= text.len()
    &&& text.subrange(at, at + needle.len()) == needle
}

/// Whether `needle` stands somewhere in `text`.
pub open spec fn contains(text: Seq<char>, needle: Seq<char>) -> bool {
    exists|at: int| occurs_at(text, needle, at)
}

/// Whether `needle` stands somewhere in `text` when the case of letters is
/// disregarded on both sides, character by character.
pub open spec fn contains_ignoring_case(text: Seq<char>, needle: Seq<char>) -> bool {
    contains(folded(text), folded(needle))
}

/// Disregards the case of one character.
pub fn fold_char(c: char) -> (lower: char)
    ensures
        lower == fold(c),
{
    if c == '%' || c == '_' || c == '\\' {
        return c;
    }
    let lower = lower_char(c);
    if lower.len() == 1 {
        let single = lower[0];
        if single == '%' || single == '_' || single == '\\' {
            c
        } else {
            single
        }
    } else {
        c
    }
}

/// The characters of a text with their case disregarded.
pub fn fold_text(text: &str) -> (chars: Vec<char>)
    ensures
        chars@ == folded(text@),
{
    let mut chars: Vec<char> = Vec::new();
    for c in it: text.chars()
        invariant
            it.seq() == text@,
            chars@ == folded(text@.take(it.index())),
    {
        chars.push(fold_char(c));
    }
    chars
}

/// Compares `needle` with the stretch of `text` that starts at `at`.
pub fn matches_at(text: &Vec<char>, needle: &Vec<char>, at: usize) -> (same: bool)
    requires
        at + needle.len() <= text.len(),
    ensures
        same == occurs_at(text@, needle@, at as int),
{
    let mut k: usize = 0;
    while k < needle.len()
        invariant
            k <= needle.len(),
            at + needle.len() <= text.len(),
            forall|j: int| 0 <= j < k ==> text@[at + j] == needle@[j],
        decreases needle.len() - k,
    {
        if text[at + k] != needle[k] {
            assert(text@.subrange(at as int, at + needle.len())[k as int] != needle@[k as int]);
            return false;
        }
        k += 1;
    }
    assert(text@.subrange(at as int, at + needle.len()) =~= needle@);
    true
}

/// Searches `text` for `needle`, trying each offset from the left.
pub fn find_in(text: &Vec<char>, needle: &Vec<char>) -> (found: bool)
    ensures
        found == contains(text@, needle@),
{
    if needle.len() > text.len() {
        return false;
    }
    let last: usize = text.len() - needle.len();
    let mut at: usize = 0;
    while at < last
        invariant
            at <= last,
            last == text.len() - needle.len(),
            needle.len() <= text.len(),
            forall|k: int| 0 <= k < at ==> !occurs_at(text@, needle@, k),
        decreases last - at,
    {
        if matches_at(text, needle, at) {
            return true;
        }
        at += 1;
    }
    matches_at(text, needle, last)
}

/// Whether `text` contains `needle` when the case of letters is disregarded.
pub fn contains_text(text: &str, needle: &str) -> (found: bool)
    ensures
        found == contains_ignoring_case(text@, needle@),
{
    let folded_text = fold_text(text);
    let folded_needle = fold_text(needle);
    find_in(&folded_text, &folded_needle)
}

/// The characters of a text.
pub fn chars_of(text: &str) -> (chars: Vec<char>)
    ensures
        chars@ == text@,
{
    let mut chars: Vec<char> = Vec::new();
    for c in it: text.chars()
        invariant
            it.seq() == text@,
            chars@ == text@.take(it.index()),
    {
        chars.push(c);
    }
    chars
}

/// Whether `text` begins with `prefix`.
pub fn starts_with(text: &Vec<char>, prefix: &Vec<char>) -> (begins: bool)
    ensures
        begins == prefix@.is_prefix_of(text@),
{
    if prefix.len() > text.len() {
        return false;
    }
    matches_at(text, prefix, 0)
}

/// The text made of the characters from position `from` on.
pub fn text_from(chars: &Vec<char>, from: usize) -> (text: String)
    requires
        from <= chars.len(),
    ensures
        text@ == chars@.skip(from as int),
{
    let mut text = String::new();
    let mut i: usize = from;
    while i < chars.len()
        invariant
            from <= i <= chars.len(),
            text@ == chars@.subrange(from as int, i as int),
        decreases chars.len() - i,
    {
        text.push(chars[i]);
        i += 1;
    }
    text
}

} // verus!
