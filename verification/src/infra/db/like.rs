//! `LIKE` patterns as the store reads them: `%` stands for any stretch of
//! text, `_` for any one character, and a backslash takes the character after
//! it literally. `ILIKE` is `LIKE` with the case of letters disregarded,
//! character by character, on both sides.

use crate::utils::text::{
    contains, contains_ignoring_case, fold, fold_text, folded, is_special, occurs_at,
};
use vstd::prelude::*;

verus! {

broadcast use vstd::string::group_string_axioms;

/// Whether `text` as a whole matches `pattern`.
pub open spec fn like(pattern: Seq<char>, text: Seq<char>) -> bool
    decreases pattern.len(),
{
    if pattern.len() == 0 {
        text.len() == 0
    } else if pattern[0] == '%' {
        exists|k: int| 0 <= k <= text.len() && like(pattern.skip(1), #[trigger] text.skip(k))
    } else if pattern[0] == '_' {
        text.len() > 0 && like(pattern.skip(1), text.skip(1))
    } else if pattern[0] == '\\' {
        pattern.len() >= 2 && text.len() > 0 && text[0] == pattern[1] && like(
            pattern.skip(2),
            text.skip(1),
        )
    } else {
        text.len() > 0 && text[0] == pattern[0] && like(pattern.skip(1), text.skip(1))
    }
}

/// Whether `text` matches `pattern` when the case of letters is disregarded
/// on both sides.
pub open spec fn ilike(pattern: Seq<char>, text: Seq<char>) -> bool {
    like(folded(pattern), folded(text))
}

/// What a character of a search text becomes inside a pattern: a special
/// character is escaped, every other character stands for itself.
pub open spec fn escaped(c: char) -> Seq<char> {
    if is_special(c) {
        seq!['\\', c]
    } else {
        seq![c]
    }
}

/// A search text with each of its characters escaped.
pub open spec fn escape_like(needle: Seq<char>) -> Seq<char>
    decreases needle.len(),
{
    if needle.len() == 0 {
        Seq::empty()
    } else {
        escape_like(needle.drop_last()) + escaped(needle.last())
    }
}

/// The pattern for "contains `needle`": the escaped text between two `%`.
pub open spec fn contains_pattern(needle: Seq<char>) -> Seq<char> {
    seq!['%'] + escape_like(needle) + seq!['%']
}

/// Builds the pattern for "contains `needle`".
pub fn like_pattern(needle: &str) -> (pattern: String)
    ensures
        pattern@ == contains_pattern(needle@),
{
    let mut pattern = String::new();
    pattern.push('%');
    for c in it: needle.chars()
        invariant
            it.seq() == needle@,
            pattern@ == seq!['%'] + escape_like(needle@.take(it.index())),
    {
        proof {
            let before = needle@.take(it.index());
            let after = needle@.take(it.index() + 1);
            assert(after.drop_last() =~= before);
        }
        if c == '%' || c == '_' || c == '\\' {
            pattern.push('\\');
        }
        pattern.push(c);
    }
    proof {
        assert(needle@.take(needle@.len() as int) =~= needle@);
    }
    pattern.push('%');
    pattern
}

/// How many characters of the pattern the token at position `at` takes: two
/// for a backslash with the character it escapes, one for anything else.
pub open spec fn token_len(pattern: Seq<char>, at: int) -> int {
    if pattern[at] == '\\' && at + 1 < pattern.len() {
        2
    } else {
        1
    }
}

/// The position at which token `k` begins, or `end` behind the last token.
pub open spec fn start_or(starts: Seq<usize>, k: int, end: int) -> int {
    if 0 <= k < starts.len() {
        starts[k] as int
    } else {
        end
    }
}

/// Whether token `k` begins inside the pattern and the next token, or `end`,
/// begins right behind it.
pub open spec fn token_at(pattern: Seq<char>, starts: Seq<usize>, k: int, end: int) -> bool {
    &&& 0 <= starts[k] < pattern.len()
    &&& start_or(starts, k + 1, end) == starts[k] + token_len(pattern, starts[k] as int)
}

/// Whether `starts` lists the positions at which the tokens of the pattern
/// begin, from the first token at the front of the pattern to the last,
/// which reaches up to `end`.
pub open spec fn token_starts(pattern: Seq<char>, starts: Seq<usize>, end: int) -> bool {
    &&& start_or(starts, 0, end) == 0
    &&& forall|k: int| 0 <= k < starts.len() ==> #[trigger] token_at(pattern, starts, k, end)
}

/// Whether `row` and `end` say, for every position of the text, whether the
/// text from there on matches the pattern from `from` on; `end` speaks for
/// the position behind the last character.
pub open spec fn row_for(
    row: Seq<bool>,
    end: bool,
    pattern: Seq<char>,
    from: int,
    text: Seq<char>,
) -> bool {
    &&& row.len() == text.len()
    &&& forall|j: int| 0 <= j < text.len() ==> #[trigger] row[j] == like(pattern.skip(from), text.skip(j))
    &&& end == like(pattern.skip(from), text.skip(text.len() as int))
}

/// Finds where the tokens of a pattern begin.
fn find_token_starts(pattern: &Vec<char>) -> (starts: Vec<usize>)
    ensures
        token_starts(pattern@, starts@, pattern@.len() as int),
{
    let mut starts: Vec<usize> = Vec::new();
    let mut at: usize = 0;
    while at < pattern.len()
        invariant
            at <= pattern.len(),
            token_starts(pattern@, starts@, at as int),
        decreases pattern.len() - at,
    {
        let ghost before = starts@;
        let ghost here = at as int;
        starts.push(at);
        if pattern[at] == '\\' && at + 1 < pattern.len() {
            at += 2;
        } else {
            at += 1;
        }
        proof {
            assert forall|k: int| 0 <= k < starts@.len() implies #[trigger] token_at(
                pattern@,
                starts@,
                k,
                at as int,
            ) by {
                if k < before.len() {
                    assert(token_at(pattern@, before, k, here));
                    assert(starts@[k] == before[k]);
                    assert(start_or(starts@, k + 1, at as int) == start_or(before, k + 1, here));
                }
            }
        }
    }
    starts
}

/// In front of a `%`, the text from `at` on matches if it matches what
/// follows the `%`, or if the text from the next position on matches.
proof fn lemma_row_percent(pattern: Seq<char>, from: int, text: Seq<char>, at: int)
    requires
        0 <= from < pattern.len(),
        pattern[from] == '%',
        0 <= at <= text.len(),
    ensures
        like(pattern.skip(from), text.skip(at)) <==> like(pattern.skip(from + 1), text.skip(at))
            || (at < text.len() && like(pattern.skip(from), text.skip(at + 1))),
{
    let p = pattern.skip(from);
    let q = pattern.skip(from + 1);
    let t = text.skip(at);
    assert(p.skip(1) =~= q);
    assert(t.skip(0) =~= t);
    if like(p, t) {
        let k = choose|k: int| 0 <= k <= t.len() && like(p.skip(1), #[trigger] t.skip(k));
        if k > 0 {
            let later = text.skip(at + 1);
            assert(later.skip(k - 1) =~= t.skip(k));
        }
    }
    if at < text.len() && like(p, text.skip(at + 1)) {
        let later = text.skip(at + 1);
        let k = choose|k: int| 0 <= k <= later.len() && like(p.skip(1), #[trigger] later.skip(k));
        assert(t.skip(k + 1) =~= later.skip(k));
    }
}

/// In front of a token that takes one character of the text, the text from
/// `at` on matches if its first character is the one the token stands for and
/// the rest matches what follows the token.
proof fn lemma_row_single(pattern: Seq<char>, from: int, text: Seq<char>, at: int)
    requires
        0 <= from < pattern.len(),
        pattern[from] != '%',
        0 <= at <= text.len(),
    ensures
        like(pattern.skip(from), text.skip(at)) <==> {
            &&& at < text.len()
            &&& pattern[from] == '_' || (pattern[from] == '\\' && from + 1 < pattern.len()
                && text[at] == pattern[from + 1]) || (pattern[from] != '_' && pattern[from]
                != '\\' && text[at] == pattern[from])
            &&& like(pattern.skip(from + token_len(pattern, from)), text.skip(at + 1))
        },
{
    let p = pattern.skip(from);
    let t = text.skip(at);
    assert(p.skip(1) =~= pattern.skip(from + 1));
    if from + 1 < pattern.len() {
        assert(p.skip(2) =~= pattern.skip(from + 2));
    }
    if at < text.len() {
        assert(t.skip(1) =~= text.skip(at + 1));
    }
}

/// The row in front of a `%`, from the row behind it.
fn row_percent(
    pattern: &Vec<char>,
    from: usize,
    text: &Vec<char>,
    next_row: &Vec<bool>,
    next_end: bool,
) -> (result: (Vec<bool>, bool))
    requires
        from < pattern.len(),
        pattern[from as int] == '%',
        row_for(next_row@, next_end, pattern@, from + 1, text@),
    ensures
        row_for(result.0@, result.1, pattern@, from as int, text@),
{
    let n = text.len();
    proof {
        lemma_row_percent(pattern@, from as int, text@, n as int);
    }
    let end = next_end;
    let mut row: Vec<bool> = vec![false; n];
    let mut at: usize = n;
    let mut later = end;
    while at > 0
        invariant
            at <= n,
            n == text.len(),
            row.len() == n,
            from < pattern.len(),
            pattern[from as int] == '%',
            row_for(next_row@, next_end, pattern@, from + 1, text@),
            later == like(pattern@.skip(from as int), text@.skip(at as int)),
            forall|j: int|
                at <= j < n ==> #[trigger] row[j] == like(
                    pattern@.skip(from as int),
                    text@.skip(j),
                ),
        decreases at,
    {
        at -= 1;
        proof {
            lemma_row_percent(pattern@, from as int, text@, at as int);
        }
        let here = next_row[at] || later;
        row.set(at, here);
        later = here;
    }
    (row, end)
}

/// The row in front of a token that takes one character of the text, from
/// the row behind the token.
fn row_single(
    pattern: &Vec<char>,
    from: usize,
    text: &Vec<char>,
    next_row: &Vec<bool>,
    next_end: bool,
) -> (result: (Vec<bool>, bool))
    requires
        from < pattern.len(),
        pattern[from as int] != '%',
        row_for(next_row@, next_end, pattern@, from + token_len(pattern@, from as int), text@),
    ensures
        row_for(result.0@, result.1, pattern@, from as int, text@),
{
    let n = text.len();
    let c = pattern[from];
    let escaped = c == '\\';
    let dangling = escaped && from + 1 >= pattern.len();
    let literal = if escaped && !dangling {
        pattern[from + 1]
    } else {
        c
    };
    proof {
        lemma_row_single(pattern@, from as int, text@, n as int);
    }
    let mut row: Vec<bool> = Vec::new();
    let mut at: usize = 0;
    while at < n
        invariant
            at <= n,
            n == text.len(),
            row.len() == at,
            from < pattern.len(),
            c == pattern[from as int],
            c != '%',
            escaped == (c == '\\'),
            dangling == (escaped && from + 1 >= pattern.len()),
            literal == (if escaped && !dangling {
                pattern[from + 1]
            } else {
                c
            }),
            row_for(next_row@, next_end, pattern@, from + token_len(pattern@, from as int), text@),
            forall|j: int|
                0 <= j < at ==> #[trigger] row[j] == like(pattern@.skip(from as int), text@.skip(j)),
        decreases n - at,
    {
        proof {
            lemma_row_single(pattern@, from as int, text@, at as int);
        }
        let fits = !dangling && (c == '_' || text[at] == literal);
        let rest = if at + 1 < n {
            next_row[at + 1]
        } else {
            next_end
        };
        row.push(fits && rest);
        at += 1;
    }
    (row, false)
}

/// The row in front of the token that begins at `from`, from the row behind
/// the token.
fn row_before(
    pattern: &Vec<char>,
    from: usize,
    text: &Vec<char>,
    next_row: &Vec<bool>,
    next_end: bool,
) -> (result: (Vec<bool>, bool))
    requires
        from < pattern.len(),
        row_for(next_row@, next_end, pattern@, from + token_len(pattern@, from as int), text@),
    ensures
        row_for(result.0@, result.1, pattern@, from as int, text@),
{
    if pattern[from] == '%' {
        row_percent(pattern, from, text, next_row, next_end)
    } else {
        row_single(pattern, from, text, next_row, next_end)
    }
}

/// Behind the whole pattern, only the end of the text matches.
fn row_behind(pattern: &Vec<char>, text: &Vec<char>) -> (result: (Vec<bool>, bool))
    ensures
        row_for(result.0@, result.1, pattern@, pattern@.len() as int, text@),
{
    let n = text.len();
    let row: Vec<bool> = vec![false; n];
    proof {
        let rest = pattern@.skip(pattern@.len() as int);
        assert(rest.len() == 0);
        assert forall|j: int| 0 <= j < n implies #[trigger] row@[j] == like(rest, text@.skip(j)) by {
            assert(text@.skip(j).len() > 0);
        }
        assert(text@.skip(n as int).len() == 0);
    }
    (row, true)
}

/// Whether `text` as a whole matches `pattern`. The work grows with the
/// product of the two lengths, whatever the pattern.
pub fn like_chars(pattern: &Vec<char>, text: &Vec<char>) -> (matched: bool)
    ensures
        matched == like(pattern@, text@),
{
    let starts = find_token_starts(pattern);
    let (mut row, mut end) = row_behind(pattern, text);
    let mut k: usize = starts.len();
    while k > 0
        invariant
            k <= starts.len(),
            token_starts(pattern@, starts@, pattern@.len() as int),
            row_for(row@, end, pattern@, start_or(starts@, k as int, pattern@.len() as int), text@),
        decreases k,
    {
        k -= 1;
        assert(token_at(pattern@, starts@, k as int, pattern@.len() as int));
        let (new_row, new_end) = row_before(pattern, starts[k], text, &row, end);
        row = new_row;
        end = new_end;
    }
    proof {
        assert(pattern@.skip(0) =~= pattern@);
        assert(text@.skip(0) =~= text@);
    }
    if text.len() == 0 {
        end
    } else {
        row[0]
    }
}

/// Whether `text` matches `pattern` when the case of letters is disregarded.
pub fn ilike_text(pattern: &str, text: &str) -> (matched: bool)
    ensures
        matched == ilike(pattern@, text@),
{
    let folded_pattern = fold_text(pattern);
    let folded_text = fold_text(text);
    like_chars(&folded_pattern, &folded_text)
}

/// Escaping can be read from the front as well as from the back.
proof fn lemma_escape_front(needle: Seq<char>)
    requires
        needle.len() > 0,
    ensures
        escape_like(needle) == escaped(needle[0]) + escape_like(needle.skip(1)),
    decreases needle.len(),
{
    if needle.len() == 1 {
        assert(needle.drop_last() =~= Seq::<char>::empty());
        assert(needle.skip(1) =~= Seq::<char>::empty());
    } else {
        lemma_escape_front(needle.drop_last());
        assert(needle.skip(1).drop_last() =~= needle.drop_last().skip(1));
    }
}

/// An escaped text at the head of a pattern matches exactly itself: the text
/// must begin with it, and what follows must match the rest of the pattern.
proof fn lemma_escaped_matches_itself(needle: Seq<char>, rest: Seq<char>, text: Seq<char>)
    ensures
        like(escape_like(needle) + rest, text) <==> {
            &&& needle.len() <= text.len()
            &&& text.take(needle.len() as int) == needle
            &&& like(rest, text.skip(needle.len() as int))
        },
    decreases needle.len(),
{
    if needle.len() == 0 {
        assert(text.skip(0) =~= text);
        assert(text.take(0) =~= needle);
    } else {
        lemma_escape_front(needle);
        let c = needle[0];
        let tail = needle.skip(1);
        let p = escape_like(needle) + rest;
        let q = escape_like(tail) + rest;
        if is_special(c) {
            assert(p.skip(2) =~= q);
        } else {
            assert(p.skip(1) =~= q);
        }
        if text.len() > 0 {
            lemma_escaped_matches_itself(tail, rest, text.skip(1));
            if needle.len() <= text.len() {
                assert(text.skip(1).skip(tail.len() as int) =~= text.skip(needle.len() as int));
                let front = text.take(needle.len() as int);
                let inner = text.skip(1).take(tail.len() as int);
                if text[0] == c && inner == tail {
                    assert forall|i: int| 0 <= i < needle.len() implies front[i] == needle[i] by {
                        if i > 0 {
                            assert(front[i] == inner[i - 1]);
                        }
                    }
                    assert(front =~= needle);
                }
                if front == needle {
                    assert(inner =~= tail);
                }
            }
        }
    }
}

/// A lone `%` matches every text.
proof fn lemma_percent_matches_all(text: Seq<char>)
    ensures
        like(seq!['%'], text),
{
    let p = seq!['%'];
    assert(like(p.skip(1), text.skip(text.len() as int)));
}

/// The pattern for "contains `needle`" matches exactly the texts in which
/// `needle` stands somewhere, whatever characters `needle` is made of.
pub proof fn lemma_contains_pattern(needle: Seq<char>, text: Seq<char>)
    ensures
        like(contains_pattern(needle), text) <==> contains(text, needle),
{
    let p = contains_pattern(needle);
    let q = escape_like(needle) + seq!['%'];
    let n = needle.len() as int;
    assert(p.skip(1) =~= q);
    if like(p, text) {
        let k = choose|k: int| 0 <= k <= text.len() && like(p.skip(1), #[trigger] text.skip(k));
        lemma_escaped_matches_itself(needle, seq!['%'], text.skip(k));
        assert(text.subrange(k, k + n) =~= text.skip(k).take(n));
        assert(occurs_at(text, needle, k));
    }
    if contains(text, needle) {
        let k = choose|k: int| occurs_at(text, needle, k);
        lemma_escaped_matches_itself(needle, seq!['%'], text.skip(k));
        lemma_percent_matches_all(text.skip(k).skip(n));
        assert(text.skip(k).take(n) =~= text.subrange(k, k + n));
    }
}

/// Disregarding case commutes with escaping: a special character stands for
/// itself and no other character is folded to one.
proof fn lemma_fold_escape(needle: Seq<char>)
    ensures
        folded(escape_like(needle)) == escape_like(folded(needle)),
    decreases needle.len(),
{
    if needle.len() == 0 {
        assert(folded(escape_like(needle)) =~= escape_like(folded(needle)));
    } else {
        let head = needle.drop_last();
        let c = needle.last();
        lemma_fold_escape(head);
        assert(folded(needle).drop_last() =~= folded(head));
        assert(folded(needle).last() == fold(c));
        assert(is_special(fold(c)) == is_special(c));
        assert(folded(escaped(c)) =~= escaped(fold(c)));
        assert(folded(escape_like(head) + escaped(c)) =~= folded(escape_like(head)) + folded(
            escaped(c),
        ));
    }
}

/// With the case of letters disregarded, the pattern for "contains `needle`"
/// matches exactly the texts that contain `needle` in any mix of cases.
pub proof fn lemma_contains_pattern_ignoring_case(needle: Seq<char>, text: Seq<char>)
    ensures
        ilike(contains_pattern(needle), text) <==> contains_ignoring_case(text, needle),
{
    lemma_fold_escape(needle);
    assert(folded(contains_pattern(needle)) =~= contains_pattern(folded(needle)));
    lemma_contains_pattern(folded(needle), folded(text));
}

} // verus!
