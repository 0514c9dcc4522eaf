//! Reading a number off the end of a sensor's name, as in `CPU 2`.

use vstd::prelude::*;

verus! {

/// The characters that separate words: those with the Unicode property
/// `White_Space`.
pub open spec fn is_space(c: char) -> bool {
    let u = c as u32;
    ||| 0x09 <= u <= 0x0D
    ||| u == 0x20
    ||| u == 0x85
    ||| u == 0xA0
    ||| u == 0x1680
    ||| 0x2000 <= u <= 0x200A
    ||| u == 0x2028
    ||| u == 0x2029
    ||| u == 0x202F
    ||| u == 0x205F
    ||| u == 0x3000
}

/// `s[start..end]` is the last word of `s`: a longest run of characters
/// that are not spaces, with nothing but spaces after it.
pub open spec fn is_last_word(s: Seq<char>, start: int, end: int) -> bool {
    &&& 0 <= start < end <= s.len()
    &&& forall|i: int| start <= i < end ==> !is_space(#[trigger] s[i])
    &&& forall|i: int| end <= i < s.len() ==> is_space(#[trigger] s[i])
    &&& start > 0 ==> is_space(s[start - 1])
}

/// `s` holds no word.
pub open spec fn all_space(s: Seq<char>) -> bool {
    forall|i: int| 0 <= i < s.len() ==> is_space(#[trigger] s[i])
}

/// Whether `c` is a decimal digit.
pub open spec fn is_digit(c: char) -> bool {
    48 <= c as u32 <= 57
}

/// Every character of `s` is a decimal digit.
pub open spec fn all_digits(s: Seq<char>) -> bool {
    forall|i: int| 0 <= i < s.len() ==> is_digit(#[trigger] s[i])
}

/// The number that a run of digits writes.
pub open spec fn number(digits: Seq<char>) -> nat
    decreases digits.len(),
{
    if digits.len() == 0 {
        0
    } else {
        number(digits.drop_last()) * 10 + (digits.last() as u32 - 48) as nat
    }
}

/// The digits of `word`: all of it but a leading plus sign.
pub open spec fn unsigned_part(word: Seq<char>) -> Seq<char> {
    if word.len() > 0 && word[0] == '+' {
        word.subrange(1, word.len() as int)
    } else {
        word
    }
}

/// The byte that `word` writes in decimal: an optional plus sign, then one
/// digit or more, together no more than 255. Nothing for any other word.
pub open spec fn parsed_u8(word: Seq<char>) -> Option<u8> {
    let digits = unsigned_part(word);
    if digits.len() > 0 && all_digits(digits) && number(digits) <= 255 {
        Some(number(digits) as u8)
    } else {
        None
    }
}

/// The byte written by the last word of `name`; nothing where `name` holds
/// no word or its last word is no such number.
pub open spec fn trailing_number(name: Seq<char>) -> Option<u8> {
    if exists|start: int, end: int| is_last_word(name, start, end) {
        let (start, end) = choose|start: int, end: int| is_last_word(name, start, end);
        parsed_u8(name.subrange(start, end))
    } else {
        None
    }
}

/// Whether `c` separates words.
pub fn is_whitespace(c: char) -> (space: bool)
    ensures
        space == is_space(c),
{
    let u: u32 = c as u32;
    (0x09 <= u && u <= 0x0D) || u == 0x20 || u == 0x85 || u == 0xA0 || u == 0x1680 || (0x2000
        <= u && u <= 0x200A) || u == 0x2028 || u == 0x2029 || u == 0x202F || u == 0x205F || u
        == 0x3000
}

/// A string has one last word at most.
pub proof fn lemma_last_word_unique(s: Seq<char>, a: int, b: int, c: int, d: int)
    requires
        is_last_word(s, a, b),
        is_last_word(s, c, d),
    ensures
        a == c,
        b == d,
{
    if b < d {
        assert(is_space(s[d - 1]));
    }
    if d < b {
        assert(is_space(s[b - 1]));
    }
    if a < c {
        assert(!is_space(s[c - 1]));
    }
    if c < a {
        assert(!is_space(s[a - 1]));
    }
}

/// A number never shrinks when digits are appended.
pub proof fn lemma_number_grows(digits: Seq<char>, k: int)
    requires
        0 <= k <= digits.len(),
        all_digits(digits),
    ensures
        number(digits.take(k)) <= number(digits),
    decreases digits.len(),
{
    if k < digits.len() {
        let front = digits.drop_last();
        assert(front.take(k) =~= digits.take(k));
        assert forall|i: int| 0 <= i < front.len() implies is_digit(#[trigger] front[i]) by {
            assert(front[i] == digits[i]);
        }
        lemma_number_grows(front, k);
        assert(is_digit(digits[digits.len() - 1]));
    } else {
        assert(digits.take(k) =~= digits);
    }
}

/// Finds the last word of `s`.
pub fn last_word(s: &str) -> (bounds: Option<(usize, usize)>)
    ensures
        match bounds {
            Some((start, end)) => is_last_word(s@, start as int, end as int),
            None => all_space(s@),
        },
{
    let len = s.unicode_len();
    let mut end: usize = len;
    while end > 0 && is_whitespace(s.get_char(end - 1))
        invariant
            end <= len,
            len == s@.len(),
            forall|i: int| end <= i < len ==> is_space(#[trigger] s@[i]),
        decreases end,
    {
        end -= 1;
    }
    if end == 0 {
        return None;
    }
    let mut start: usize = end - 1;
    while start > 0 && !is_whitespace(s.get_char(start - 1))
        invariant
            start < end <= len,
            len == s@.len(),
            forall|i: int| start <= i < end ==> !is_space(#[trigger] s@[i]),
        decreases start,
    {
        start -= 1;
    }
    Some((start, end))
}

/// Reads `s[start..end]` as a byte in decimal.
pub fn parse_u8(s: &str, start: usize, end: usize) -> (value: Option<u8>)
    requires
        start <= end <= s@.len(),
    ensures
        value == parsed_u8(s@.subrange(start as int, end as int)),
{
    let ghost word = s@.subrange(start as int, end as int);
    let mut first: usize = start;
    if start < end && s.get_char(start) == '+' {
        first = start + 1;
    }
    let ghost digits = unsigned_part(word);
    assert(digits =~= s@.subrange(first as int, end as int));
    if first == end {
        return None;
    }
    let mut total: u32 = 0;
    let mut at: usize = first;
    while at < end
        invariant
            start <= first <= at <= end <= s@.len(),
            digits == unsigned_part(s@.subrange(start as int, end as int)),
            digits == s@.subrange(first as int, end as int),
            all_digits(digits.take(at - first)),
            total == number(digits.take(at - first)),
            total <= 255,
        decreases end - at,
    {
        let c = s.get_char(at);
        let u: u32 = c as u32;
        let ghost seen = digits.take(at - first);
        let ghost more = digits.take(at - first + 1);
        assert(more.drop_last() =~= seen);
        assert(more.last() == c);
        if u < 48 || u > 57 {
            assert(!is_digit(digits[at - first]));
            return None;
        }
        assert forall|i: int| 0 <= i < more.len() implies is_digit(#[trigger] more[i]) by {
            if i < seen.len() {
                assert(seen[i] == more[i]);
            }
        }
        total = total * 10 + (u - 48);
        if total > 255 {
            proof {
                if all_digits(digits) {
                    lemma_number_grows(digits, at - first + 1);
                }
            }
            return None;
        }
        at += 1;
    }
    assert(digits.take(at - first) =~= digits);
    Some(total as u8)
}

/// Reads the number at the end of a name such as `CPU 2`.
pub fn cpu_number(name: &str) -> (id: Option<u8>)
    ensures
        id == trailing_number(name@),
{
    match last_word(name) {
        None => {
            assert(trailing_number(name@) is None) by {
                if exists|start: int, end: int| is_last_word(name@, start, end) {
                    let (start, end) = choose|start: int, end: int|
                        is_last_word(name@, start, end);
                    assert(is_space(name@[start]));
                }
            }
            None
        },
        Some((start, end)) => {
            proof {
                let (a, b) = choose|a: int, b: int| is_last_word(name@, a, b);
                lemma_last_word_unique(name@, start as int, end as int, a, b);
            }
            parse_u8(name, start, end)
        },
    }
}

} // verus!
