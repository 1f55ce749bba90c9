//! Reading text: finding a pattern in a string and reading a decimal number.

use vstd::prelude::*;
use vstd::string::*;

verus! {

/// The characters of a string, one by one.
pub fn to_chars(s: &str) -> (chars: Vec<char>)
    ensures
        chars@ == s@,
{
    let n = s.unicode_len();
    let mut chars: Vec<char> = Vec::new();
    let mut i: usize = 0;
    while i < n
        invariant
            i <= n == s@.len(),
            chars@ == s@.take(i as int),
        decreases n - i,
    {
        chars.push(s.get_char(i));
        assert(chars@ =~= s@.take(i + 1));
        i = i + 1;
    }
    assert(s@.take(n as int) =~= s@);
    chars
}

/// Whether `pattern` stands in `text` at position `i`.
pub open spec fn occurs_at(text: Seq<char>, pattern: Seq<char>, i: int) -> bool {
    0 <= i && i + pattern.len() <= text.len() && text.subrange(i, i + pattern.len()) == pattern
}

/// The first position at or behind `from` where `pattern` stands in `text`.
pub open spec fn find_from(text: Seq<char>, pattern: Seq<char>, from: int) -> Option<int>
    decreases text.len() - from,
{
    if from < 0 || from + pattern.len() > text.len() {
        None
    } else if occurs_at(text, pattern, from) {
        Some(from)
    } else if from < text.len() {
        find_from(text, pattern, from + 1)
    } else {
        None
    }
}

/// What `find_from` finds is an occurrence, and the first one.
pub proof fn lemma_find_from(text: Seq<char>, pattern: Seq<char>, from: int)
    requires
        0 <= from,
    ensures
        match find_from(text, pattern, from) {
            Some(i) => from <= i && occurs_at(text, pattern, i) && forall|j: int|
                from <= j < i ==> !occurs_at(text, pattern, j),
            None => forall|j: int| from <= j ==> !occurs_at(text, pattern, j),
        },
    decreases text.len() - from,
{
    if from + pattern.len() > text.len() {
    } else if occurs_at(text, pattern, from) {
    } else if from < text.len() {
        lemma_find_from(text, pattern, from + 1);
    } else {
        assert(text.subrange(from, from + pattern.len()) =~= pattern);
    }
}

/// Whether `pattern` stands in `text` at position `i`.
fn matches_at(text: &Vec<char>, pattern: &Vec<char>, i: usize) -> (b: bool)
    requires
        i + pattern@.len() <= text@.len(),
    ensures
        b == occurs_at(text@, pattern@, i as int),
{
    let n = text.len();
    let mut k: usize = 0;
    while k < pattern.len()
        invariant
            k <= pattern@.len(),
            i + pattern@.len() <= text@.len() == n,
            forall|j: int| 0 <= j < k ==> text@[i + j] == pattern@[j],
        decreases pattern@.len() - k,
    {
        if text[i + k] != pattern[k] {
            assert(text@.subrange(i as int, i + pattern@.len())[k as int] != pattern@[k as int]);
            return false;
        }
        k = k + 1;
    }
    assert(text@.subrange(i as int, i + pattern@.len()) =~= pattern@);
    true
}

/// The first position at or behind `from` where `pattern` stands in `text`.
pub fn find(text: &Vec<char>, pattern: &Vec<char>, from: usize) -> (found: Option<usize>)
    ensures
        match found {
            Some(i) => find_from(text@, pattern@, from as int) == Some(i as int) && i
                + pattern@.len() <= text@.len(),
            None => find_from(text@, pattern@, from as int) is None,
        },
{
    if pattern.len() > text.len() {
        return None;
    }
    let last = text.len() - pattern.len();
    let mut i: usize = from;
    while i <= last
        invariant
            from <= i,
            last == text@.len() - pattern@.len(),
            find_from(text@, pattern@, from as int) == find_from(text@, pattern@, i as int),
        decreases last + 1 - i,
    {
        if matches_at(text, pattern, i) {
            return Some(i);
        }
        if i == last {
            proof {
                if i < text@.len() {
                    assert(find_from(text@, pattern@, i + 1) is None);
                }
            }
            return None;
        }
        i = i + 1;
    }
    None
}

/// Whether a character is a decimal digit.
pub open spec fn is_digit(c: char) -> bool {
    '0' <= c && c <= '9'
}

/// The value of a decimal digit.
pub open spec fn digit_value(c: char) -> nat {
    (c as nat - '0' as nat) as nat
}

/// The number that a run of decimal digits spells.
pub open spec fn digits_value(digits: Seq<char>) -> nat
    decreases digits.len(),
{
    if digits.len() == 0 {
        0
    } else {
        digits_value(digits.drop_last()) * 10 + digit_value(digits.last())
    }
}

/// Whether all characters are decimal digits.
pub open spec fn all_digits(digits: Seq<char>) -> bool {
    forall|i: int| 0 <= i < digits.len() ==> is_digit(#[trigger] digits[i])
}

/// The digits of a numeral: what follows an optional leading `+`.
pub open spec fn numeral_digits(text: Seq<char>) -> Seq<char> {
    if text.len() > 0 && text[0] == '+' {
        text.drop_first()
    } else {
        text
    }
}

/// The unsigned 64-bit number that `text` spells in decimal: an optional
/// `+` and then at least one digit, and nothing else. `None` for any other
/// text, and for a number that does not fit 64 bits.
pub open spec fn parse_u64(text: Seq<char>) -> Option<u64> {
    let digits = numeral_digits(text);
    if digits.len() == 0 || !all_digits(digits) || digits_value(digits) > u64::MAX {
        None
    } else {
        Some(digits_value(digits) as u64)
    }
}

/// More digits make no smaller number.
pub proof fn lemma_digits_value_grows(digits: Seq<char>, k: int)
    requires
        0 <= k <= digits.len(),
    ensures
        digits_value(digits.take(k)) <= digits_value(digits),
    decreases digits.len() - k,
{
    if k < digits.len() {
        lemma_digits_value_grows(digits, k + 1);
        assert(digits.take(k + 1).drop_last() =~= digits.take(k));
    } else {
        assert(digits.take(k) =~= digits);
    }
}

/// Reads the characters of `text` from `start` on as an unsigned decimal
/// number, as `parse_u64` reads a string.
pub fn read_u64(text: &Vec<char>, start: usize, end: usize) -> (r: Option<u64>)
    requires
        start <= end <= text@.len(),
    ensures
        r == parse_u64(text@.subrange(start as int, end as int)),
{
    let ghost whole = text@.subrange(start as int, end as int);
    let mut i: usize = start;
    if i < end && text[i] == '+' {
        i = i + 1;
    }
    let first = i;
    let ghost digits = numeral_digits(whole);
    proof {
        if start < end {
            assert(whole[0] == text@[start as int]);
        }
        assert(digits =~= text@.subrange(first as int, end as int));
    }
    if first == end {
        return None;
    }
    let mut value: u64 = 0;
    while i < end
        invariant
            first <= i <= end <= text@.len(),
            digits == text@.subrange(first as int, end as int),
            digits == numeral_digits(text@.subrange(start as int, end as int)),
            all_digits(digits.take(i - first)),
            value == digits_value(digits.take(i - first)),
        decreases end - i,
    {
        let c = text[i];
        assert(digits[i - first] == c);
        if c < '0' || c > '9' {
            assert(!is_digit(digits[i - first]));
            return None;
        }
        let d: u64 = (c as u32 - '0' as u32) as u64;
        proof {
            assert(digits.take(i - first + 1).drop_last() =~= digits.take(i - first));
            assert(digits.take(i - first + 1).last() == c);
            lemma_digits_value_grows(digits, i - first + 1);
            assert(all_digits(digits.take(i - first + 1))) by {
                assert forall|j: int| 0 <= j < i - first + 1 implies is_digit(
                    #[trigger] digits.take(i - first + 1)[j],
                ) by {
                    if j < i - first {
                        assert(digits.take(i - first)[j] == digits[j]);
                    }
                }
            }
        }
        assert(d == digit_value(c));
        if value > (u64::MAX - d) / 10 {
            assert(value * 10 + d > u64::MAX);
            assert(digits_value(digits.take(i - first + 1)) == value * 10 + d);
            return None;
        }
        value = value * 10 + d;
        i = i + 1;
    }
    proof {
        assert(digits.take(end - first) =~= digits);
    }
    Some(value)
}

} // verus!
