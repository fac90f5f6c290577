//! Text: decimal numbers, letters in lower case, white space, and the search
//! for one text in another.

use vstd::prelude::*;
use vstd::string::{StrSliceExecFns, StringExecFns};

verus! {

/// The character of the decimal digit `d`.
pub open spec fn digit_char(d: int) -> char {
    if d == 0 {
        '0'
    } else if d == 1 {
        '1'
    } else if d == 2 {
        '2'
    } else if d == 3 {
        '3'
    } else if d == 4 {
        '4'
    } else if d == 5 {
        '5'
    } else if d == 6 {
        '6'
    } else if d == 7 {
        '7'
    } else if d == 8 {
        '8'
    } else {
        '9'
    }
}

/// The decimal numeral of `n`, without sign or leading zeros.
pub open spec fn decimal(n: nat) -> Seq<char>
    decreases n,
{
    if n < 10 {
        seq![digit_char(n as int)]
    } else {
        decimal(n / 10).push(digit_char((n % 10) as int))
    }
}

/// The one-character text of the decimal digit `d`.
fn digit_text(d: u32) -> (r: &'static str)
    requires
        d < 10,
    ensures
        r@ == seq![digit_char(d as int)],
{
    proof {
        reveal_strlit("0");
        reveal_strlit("1");
        reveal_strlit("2");
        reveal_strlit("3");
        reveal_strlit("4");
        reveal_strlit("5");
        reveal_strlit("6");
        reveal_strlit("7");
        reveal_strlit("8");
        reveal_strlit("9");
    }
    let r = if d == 0 {
        "0"
    } else if d == 1 {
        "1"
    } else if d == 2 {
        "2"
    } else if d == 3 {
        "3"
    } else if d == 4 {
        "4"
    } else if d == 5 {
        "5"
    } else if d == 6 {
        "6"
    } else if d == 7 {
        "7"
    } else if d == 8 {
        "8"
    } else {
        "9"
    };
    assert(r@ =~= seq![digit_char(d as int)]);
    r
}

/// Writes `n` in decimal.
pub fn decimal_text(n: u32) -> (r: String)
    ensures
        r@ == decimal(n as nat),
    decreases n,
{
    if n < 10 {
        digit_text(n).to_owned()
    } else {
        let mut r = decimal_text(n / 10);
        r.append(digit_text(n % 10));
        assert(r@ =~= decimal(n as nat));
        r
    }
}

/// The lower-case form of an ASCII capital letter; every other character is
/// its own.
pub open spec fn ascii_lower(c: char) -> char {
    if 'A' <= c <= 'Z' {
        ((c as u8) + 32) as char
    } else {
        c
    }
}

/// `text` with its ASCII capital letters in lower case.
pub open spec fn lowered(text: Seq<char>) -> Seq<char> {
    text.map_values(|c: char| ascii_lower(c))
}

/// Whether `text` ends with `ending`.
pub open spec fn ends_with(text: Seq<char>, ending: Seq<char>) -> bool {
    ending.len() <= text.len() && text.subrange(text.len() - ending.len(), text.len() as int)
        == ending
}

/// Whether `text` holds `part` as a run of characters.
pub open spec fn contains_text(text: Seq<char>, part: Seq<char>) -> bool {
    exists|at: int|
        0 <= at && at + part.len() <= text.len() && #[trigger] text.subrange(
            at,
            at + part.len(),
        ) == part
}

/// The lower-case form of an ASCII capital letter; every other character is
/// its own.
pub fn lower_char(c: char) -> (r: char)
    ensures
        r == ascii_lower(c),
{
    if 'A' <= c && c <= 'Z' {
        ((c as u8) + 32) as char
    } else {
        c
    }
}

/// The characters of `text`.
pub fn chars_of(text: &str) -> (chars: Vec<char>)
    ensures
        chars@ == text@,
{
    let mut chars: Vec<char> = Vec::new();
    let letters = text.chars();
    for c in it: letters
        invariant
            it.seq() == text@,
            chars@ == it.seq().take(it.index() as int),
    {
        chars.push(c);
        assert(it.seq().take(it.index() + 1) =~= it.seq().take(it.index() as int).push(c));
    }
    assert(text@.take(text@.len() as int) =~= text@);
    chars
}

/// Whether `text`, with its ASCII capital letters in lower case, is `word`.
pub fn is_lowered(text: &Vec<char>, word: &str) -> (r: bool)
    ensures
        r == (lowered(text@) == word@),
{
    let letters = chars_of(word);
    let n = letters.len();
    if text.len() != n {
        return false;
    }
    let mut i: usize = 0;
    while i < n
        invariant
            letters@ == word@,
            n == word@.len(),
            n == text@.len(),
            i <= n,
            forall|k: int| 0 <= k < i ==> ascii_lower(text@[k]) == word@[k],
        decreases n - i,
    {
        if lower_char(text[i]) != letters[i] {
            assert(lowered(text@)[i as int] != word@[i as int]);
            return false;
        }
        i += 1;
    }
    assert(lowered(text@) =~= word@);
    true
}

/// Whether `text` holds `part` at the position `at`.
pub open spec fn holds_part_at(text: Seq<char>, part: Seq<char>, at: int) -> bool {
    0 <= at && at + part.len() <= text.len() && text.subrange(at, at + part.len()) == part
}

/// Whether `text` holds `part` at the position `at`.
pub fn holds_at(text: &Vec<char>, part: &Vec<char>, at: usize) -> (r: bool)
    ensures
        r == holds_part_at(text@, part@, at as int),
{
    let total = text.len();
    if at > total || part.len() > total - at {
        return false;
    }
    let mut i: usize = 0;
    while i < part.len()
        invariant
            at + part@.len() <= text@.len() == total,
            i <= part@.len(),
            forall|k: int| 0 <= k < i ==> text@[at + k] == part@[k],
        decreases part@.len() - i,
    {
        if text[at + i] != part[i] {
            assert(text@.subrange(at as int, at + part@.len())[i as int] != part@[i as int]);
            return false;
        }
        i += 1;
    }
    assert(text@.subrange(at as int, at + part@.len()) =~= part@);
    true
}

/// Whether `text` holds `part` as a run of characters.
pub fn holds_text(text: &Vec<char>, part: &Vec<char>) -> (r: bool)
    ensures
        r == contains_text(text@, part@),
{
    if part.len() > text.len() {
        return false;
    }
    let last = text.len() - part.len();
    let mut at: usize = 0;
    loop
        invariant
            last == text@.len() - part@.len(),
            at <= last,
            forall|k: int|
                0 <= k < at ==> #[trigger] text@.subrange(k, k + part@.len()) != part@,
        decreases last - at,
    {
        if holds_at(text, part, at) {
            return true;
        }
        if at == last {
            return false;
        }
        at += 1;
    }
}

/// Whether `c` is white space: a character with the Unicode property
/// `White_Space`.
pub open spec fn is_space(c: char) -> bool {
    ('\t' <= c <= '\r') || c == ' ' || c == '\u{85}' || c == '\u{a0}' || c == '\u{1680}' || (
    '\u{2000}' <= c <= '\u{200a}') || c == '\u{2028}' || c == '\u{2029}' || c == '\u{202f}' || c
        == '\u{205f}' || c == '\u{3000}'
}

/// `text` without the characters at its start that meet `skip`.
pub open spec fn strip_start(text: Seq<char>, skip: spec_fn(char) -> bool) -> Seq<char>
    decreases text.len(),
{
    if text.len() > 0 && skip(text[0]) {
        strip_start(text.drop_first(), skip)
    } else {
        text
    }
}

/// `text` without the characters at its end that meet `skip`.
pub open spec fn strip_end(text: Seq<char>, skip: spec_fn(char) -> bool) -> Seq<char>
    decreases text.len(),
{
    if text.len() > 0 && skip(text.last()) {
        strip_end(text.drop_last(), skip)
    } else {
        text
    }
}

/// `text` without the white space at its start and at its end.
pub open spec fn trimmed(text: Seq<char>) -> Seq<char> {
    strip_end(strip_start(text, |c: char| is_space(c)), |c: char| is_space(c))
}

/// What is stripped from the start is the longest run of characters to skip.
pub proof fn lemma_strip_start(text: Seq<char>, skip: spec_fn(char) -> bool, from: int)
    requires
        0 <= from <= text.len(),
        forall|k: int| 0 <= k < from ==> skip(#[trigger] text[k]),
        from < text.len() ==> !skip(text[from]),
    ensures
        strip_start(text, skip) == text.subrange(from, text.len() as int),
    decreases from,
{
    if from == 0 {
        assert(text.subrange(0, text.len() as int) =~= text);
    } else {
        let rest = text.drop_first();
        assert forall|k: int| 0 <= k < from - 1 implies skip(#[trigger] rest[k]) by {
            assert(rest[k] == text[k + 1]);
        }
        lemma_strip_start(rest, skip, from - 1);
        assert(rest.subrange(from - 1, rest.len() as int) =~= text.subrange(
            from,
            text.len() as int,
        ));
    }
}

/// What is stripped from the end is the longest run of characters to skip.
pub proof fn lemma_strip_end(text: Seq<char>, skip: spec_fn(char) -> bool, to: int)
    requires
        0 <= to <= text.len(),
        forall|k: int| to <= k < text.len() ==> skip(#[trigger] text[k]),
        to > 0 ==> !skip(text[to - 1]),
    ensures
        strip_end(text, skip) == text.subrange(0, to),
    decreases text.len() - to,
{
    if to == text.len() {
        assert(text.subrange(0, to) =~= text);
    } else {
        let rest = text.drop_last();
        assert forall|k: int| to <= k < rest.len() implies skip(#[trigger] rest[k]) by {
            assert(rest[k] == text[k]);
        }
        lemma_strip_end(rest, skip, to);
        assert(rest.subrange(0, to) =~= text.subrange(0, to));
    }
}

/// Whether `c` is white space.
pub fn is_space_char(c: char) -> (r: bool)
    ensures
        r == is_space(c),
{
    ('\t' <= c && c <= '\r') || c == ' ' || c == '\u{85}' || c == '\u{a0}' || c == '\u{1680}' || (
    '\u{2000}' <= c && c <= '\u{200a}') || c == '\u{2028}' || c == '\u{2029}' || c == '\u{202f}'
        || c == '\u{205f}' || c == '\u{3000}'
}

/// `text` without the white space at its start and at its end.
pub fn trim(text: &str) -> (r: String)
    ensures
        r@ == trimmed(text@),
{
    let chars = chars_of(text);
    let n = chars.len();
    let mut from: usize = 0;
    while from < n && is_space_char(chars[from])
        invariant
            n == chars@.len(),
            from <= n,
            forall|k: int| 0 <= k < from ==> is_space(#[trigger] chars@[k]),
        decreases n - from,
    {
        from += 1;
    }
    let mut to: usize = n;
    while to > from && is_space_char(chars[to - 1])
        invariant
            n == chars@.len(),
            from <= to <= n,
            forall|k: int| to <= k < n ==> is_space(#[trigger] chars@[k]),
        decreases to,
    {
        to -= 1;
    }
    proof {
        let space = |c: char| is_space(c);
        lemma_strip_start(text@, space, from as int);
        let rest = text@.subrange(from as int, n as int);
        assert forall|k: int| to - from <= k < rest.len() implies space(#[trigger] rest[k]) by {
            assert(rest[k] == chars@[k + from]);
        }
        if to > from {
            assert(rest[to - from - 1] == chars@[to - 1]);
        }
        lemma_strip_end(rest, space, to - from);
        assert(rest.subrange(0, to - from) =~= text@.subrange(from as int, to as int));
    }
    text.substring_char(from, to).to_owned()
}

} // verus!
