//! Small verified helpers on character sequences: searching for a
//! separator, comparing, and reading unsigned decimal numbers.

use vstd::prelude::*;
use vstd::string::*;

verus! {

/// Index of the first occurrence of `sep` in `s` at or after `from`, or
/// `s.len()` when there is none.
pub open spec fn next_sep(s: Seq<char>, sep: char, from: int) -> int
    decreases s.len() - from,
{
    if from < 0 || from >= s.len() {
        s.len() as int
    } else if s[from] == sep {
        from
    } else {
        next_sep(s, sep, from + 1)
    }
}

/// `next_sep` stays between its starting point and the end, points at a
/// separator when it stops early, and skips no separator.
pub proof fn lemma_next_sep(s: Seq<char>, sep: char, from: int)
    requires
        0 <= from <= s.len(),
    ensures
        from <= next_sep(s, sep, from) <= s.len(),
        next_sep(s, sep, from) < s.len() ==> s[next_sep(s, sep, from)] == sep,
        forall|i: int| from <= i < next_sep(s, sep, from) ==> s[i] != sep,
    decreases s.len() - from,
{
    if from < s.len() && s[from] != sep {
        lemma_next_sep(s, sep, from + 1);
    }
}

/// True when `s` ends with `suffix`.
pub open spec fn ends_with(s: Seq<char>, suffix: Seq<char>) -> bool {
    s.len() >= suffix.len() && s.subrange(s.len() - suffix.len(), s.len() as int) == suffix
}

/// True for the ten ASCII decimal digits.
pub open spec fn is_digit(c: char) -> bool {
    48 <= c as u32 <= 57
}

/// The number a decimal digit stands for.
pub open spec fn digit_value(c: char) -> int {
    c as u32 as int - 48
}

/// True when every character of `s` is a decimal digit.
pub open spec fn all_digits(s: Seq<char>) -> bool {
    forall|i: int| 0 <= i < s.len() ==> is_digit(#[trigger] s[i])
}

/// The value of a string of decimal digits, most significant digit first.
pub open spec fn digits_value(s: Seq<char>) -> int
    decreases s.len(),
{
    if s.len() == 0 {
        0
    } else {
        digits_value(s.drop_last()) * 10 + digit_value(s.last())
    }
}

/// The digits of a number text: the text without one leading plus sign.
pub open spec fn unsigned_digits(s: Seq<char>) -> Seq<char> {
    if s.len() > 0 && s[0] == '+' {
        s.subrange(1, s.len() as int)
    } else {
        s
    }
}

/// Reading of an unsigned decimal number no larger than `max`: an optional
/// plus sign followed by one or more digits and nothing else.
pub open spec fn parse_unsigned(s: Seq<char>, max: int) -> Option<int> {
    let digits = unsigned_digits(s);
    if digits.len() > 0 && all_digits(digits) && digits_value(digits) <= max {
        Some(digits_value(digits))
    } else {
        None
    }
}

/// The value of a digit string never shrinks when digits are appended.
pub proof fn lemma_digits_value_prefix(s: Seq<char>, k: int)
    requires
        all_digits(s),
        0 <= k <= s.len(),
    ensures
        0 <= digits_value(s.subrange(0, k)) <= digits_value(s),
    decreases s.len() - k,
{
    lemma_digits_value_nonnegative(s.subrange(0, k));
    if k < s.len() {
        let longer = s.subrange(0, k + 1);
        assert(longer.drop_last() == s.subrange(0, k));
        assert(longer.last() == s[k]);
        assert(is_digit(s[k]));
        lemma_digits_value_prefix(s, k + 1);
    } else {
        assert(s.subrange(0, k) == s);
    }
}

/// The value of a digit string is never negative.
pub proof fn lemma_digits_value_nonnegative(s: Seq<char>)
    requires
        all_digits(s),
    ensures
        0 <= digits_value(s),
    decreases s.len(),
{
    if s.len() > 0 {
        assert(is_digit(s[s.len() - 1]));
        assert forall|i: int| 0 <= i < s.drop_last().len() implies is_digit(
            #[trigger] s.drop_last()[i],
        ) by {
            assert(s.drop_last()[i] == s[i]);
        }
        lemma_digits_value_nonnegative(s.drop_last());
    }
}

/// The characters of a string, one by one.
pub fn to_chars(s: &str) -> (chars: Vec<char>)
    ensures
        chars@ == s@,
{
    let n: usize = s.unicode_len();
    let mut chars: Vec<char> = Vec::new();
    let mut i: usize = 0;
    while i < n
        invariant
            n == s@.len(),
            i <= n,
            chars@ == s@.subrange(0, i as int),
        decreases n - i,
    {
        chars.push(s.get_char(i));
        i = i + 1;
    }
    assert(s@.subrange(0, n as int) == s@);
    chars
}

/// Finds the first `sep` at or after `from`.
pub fn find_sep(chars: &Vec<char>, sep: char, from: usize) -> (at: usize)
    requires
        from <= chars.len(),
    ensures
        at == next_sep(chars@, sep, from as int),
        from <= at <= chars.len(),
{
    let mut i: usize = from;
    proof {
        lemma_next_sep(chars@, sep, from as int);
    }
    while i < chars.len() && chars[i] != sep
        invariant
            from <= i <= chars.len(),
            next_sep(chars@, sep, from as int) == next_sep(chars@, sep, i as int),
        decreases chars.len() - i,
    {
        i = i + 1;
    }
    i
}

/// Compares two strings character by character.
pub fn str_equal(a: &str, b: &str) -> (same: bool)
    ensures
        same == (a@ == b@),
{
    let left = String::from_str(a);
    let right = String::from_str(b);
    left == right
}

/// Tells whether `s` ends with `suffix`.
pub fn str_ends_with(s: &str, suffix: &str) -> (yes: bool)
    ensures
        yes == ends_with(s@, suffix@),
{
    let n: usize = s.unicode_len();
    let m: usize = suffix.unicode_len();
    if n < m {
        false
    } else {
        str_equal(s.substring_char(n - m, n), suffix)
    }
}

/// Reads an unsigned decimal number no larger than `max`.
pub fn read_unsigned(s: &str, max: u32) -> (number: Option<u32>)
    ensures
        match number {
            Some(n) => parse_unsigned(s@, max as int) == Some(n as int),
            None => parse_unsigned(s@, max as int) is None,
        },
{
    let chars = to_chars(s);
    let n: usize = chars.len();
    let start: usize = if n > 0 && chars[0] == '+' {
        1
    } else {
        0
    };
    let ghost digits = unsigned_digits(s@);
    assert(digits == s@.subrange(start as int, n as int));
    if start == n {
        return None;
    }
    let mut value: u64 = 0;
    let mut i: usize = start;
    while i < n
        invariant
            chars@ == s@,
            n == chars.len(),
            start <= i <= n,
            digits == unsigned_digits(s@),
            digits == s@.subrange(start as int, n as int),
            all_digits(digits.subrange(0, i - start)),
            value == digits_value(digits.subrange(0, i - start)),
            value <= max,
        decreases n - i,
    {
        let c: char = chars[i];
        let code: u32 = c as u32;
        assert(c == digits[i - start]);
        if code < 48 || code > 57 {
            assert(!is_digit(digits[i - start]));
            return None;
        }
        let ghost before = digits.subrange(0, i - start);
        let ghost after = digits.subrange(0, i + 1 - start);
        assert(after.drop_last() == before);
        assert(after.last() == digits[i - start]);
        assert forall|j: int| 0 <= j < after.len() implies is_digit(#[trigger] after[j]) by {
            if j < before.len() {
                assert(after[j] == before[j]);
            }
        }
        let next: u64 = value * 10 + (code - 48) as u64;
        assert(next == digits_value(after));
        if next > max as u64 {
            proof {
                if all_digits(digits) {
                    lemma_digits_value_prefix(digits, i + 1 - start);
                }
            }
            return None;
        }
        value = next;
        i = i + 1;
    }
    assert(digits.subrange(0, n - start) == digits);
    Some(value as u32)
}

} // verus!
