//! Helpers over text: comparison, prefixes, decimal numbers, and the cause
//! that a failed outcome carries.

use vstd::prelude::*;

verus! {

/// The characters of `s`, in order.
pub fn chars_of(s: &str) -> (chars: Vec<char>)
    ensures
        chars@ == s@,
{
    let mut chars: Vec<char> = Vec::new();
    for c in it: s.chars()
        invariant
            chars@ == it.seq().take(it.index()),
    {
        chars.push(c);
    }
    chars
}

/// Whether two strings hold the same characters.
pub fn same_text(a: &str, b: &str) -> (same: bool)
    ensures
        same == (a@ == b@),
{
    let left = String::from_str(a);
    let right = String::from_str(b);
    left == right
}

/// The cause in a failed outcome, and `None` for a success.
pub open spec fn failure_of(outcome: Result<(), String>) -> Option<Seq<char>> {
    match outcome {
        Ok(_) => None,
        Err(cause) => Some(cause@),
    }
}

/// `s` begins with `prefix`.
pub open spec fn has_prefix(s: Seq<char>, prefix: Seq<char>) -> bool {
    prefix.len() <= s.len() && s.subrange(0, prefix.len() as int) == prefix
}

/// `s` with every leading repetition of `prefix` removed.
pub open spec fn without_leading(s: Seq<char>, prefix: Seq<char>) -> Seq<char>
    decreases s.len(),
{
    if prefix.len() > 0 && has_prefix(s, prefix) {
        without_leading(s.skip(prefix.len() as int), prefix)
    } else {
        s
    }
}

/// Whether `chars[from..]` begins with `prefix`.
fn prefix_at(chars: &Vec<char>, from: usize, prefix: &Vec<char>) -> (found: bool)
    requires
        from <= chars.len(),
    ensures
        found == has_prefix(chars@.skip(from as int), prefix@),
{
    if prefix.len() > chars.len() - from {
        return false;
    }
    let mut i: usize = 0;
    while i < prefix.len()
        invariant
            from <= chars.len(),
            prefix.len() <= chars.len() - from,
            i <= prefix.len(),
            forall|k: int| 0 <= k < i ==> chars@[from + k] == prefix@[k],
        decreases prefix.len() - i,
    {
        if chars[from + i] != prefix[i] {
            proof {
                let head = chars@.skip(from as int).subrange(0, prefix.len() as int);
                assert(head[i as int] != prefix@[i as int]);
            }
            return false;
        }
        i += 1;
    }
    proof {
        let head = chars@.skip(from as int).subrange(0, prefix.len() as int);
        assert(head =~= prefix@);
    }
    true
}

/// Removes every leading repetition of `prefix` from `s`: with the prefix
/// `ab`, `ababc` becomes `c`. An empty prefix removes nothing.
pub fn strip_leading(s: &str, prefix: &str) -> (rest: String)
    ensures
        rest@ == without_leading(s@, prefix@),
{
    let chars = chars_of(s);
    let pattern = chars_of(prefix);
    let mut from: usize = 0;
    proof {
        assert(s@.skip(0) =~= s@);
    }
    if pattern.len() > 0 {
        while prefix_at(&chars, from, &pattern)
            invariant
                chars@ == s@,
                pattern@ == prefix@,
                pattern.len() > 0,
                from <= chars.len(),
                without_leading(s@, prefix@) == without_leading(s@.skip(from as int), prefix@),
            decreases chars.len() - from,
        {
            proof {
                let here = s@.skip(from as int);
                assert(here.skip(pattern.len() as int) =~= s@.skip(from + pattern.len()));
            }
            from += pattern.len();
        }
    }
    proof {
        assert(s@.skip(from as int) =~= s@.subrange(from as int, s@.len() as int));
    }
    s.substring_char(from, chars.len()).to_owned()
}

/// `first` followed by `second`.
pub fn concat2(first: &str, second: &str) -> (text: String)
    ensures
        text@ == first@ + second@,
{
    String::from_str(first).concat(second)
}

/// An ASCII decimal digit.
pub open spec fn is_digit(c: char) -> bool {
    '0' <= c && c <= '9'
}

/// The value of a decimal digit.
pub open spec fn digit_value(c: char) -> int {
    c as int - '0' as int
}

/// Every character of `s` is a decimal digit.
pub open spec fn all_digits(s: Seq<char>) -> bool {
    forall|i: int| 0 <= i < s.len() ==> is_digit(#[trigger] s[i])
}

/// The number that a run of decimal digits writes, most significant first.
pub open spec fn decimal_value(digits: Seq<char>) -> int
    decreases digits.len(),
{
    if digits.len() == 0 {
        0
    } else {
        decimal_value(digits.drop_last()) * 10 + digit_value(digits.last())
    }
}

/// The digits of a number written with an optional leading `+`.
pub open spec fn unsigned_digits(s: Seq<char>) -> Seq<char> {
    if s.len() > 0 && s[0] == '+' {
        s.skip(1)
    } else {
        s
    }
}

/// The `u32` that `s` writes in decimal: an optional `+`, then one or more
/// ASCII digits and nothing else, with a value of at most `u32::MAX`.
pub open spec fn parsed_u32(s: Seq<char>) -> Option<u32> {
    let digits = unsigned_digits(s);
    if digits.len() > 0 && all_digits(digits) && decimal_value(digits) <= u32::MAX {
        Some(decimal_value(digits) as u32)
    } else {
        None
    }
}

/// A longer run of digits never writes a smaller number than its start.
pub proof fn lemma_decimal_value_grows(digits: Seq<char>, n: int)
    requires
        all_digits(digits),
        0 <= n <= digits.len(),
    ensures
        0 <= decimal_value(digits.take(n)) <= decimal_value(digits),
    decreases digits.len() - n,
{
    lemma_decimal_value_nonnegative(digits.take(n));
    if n == digits.len() {
        assert(digits.take(n) =~= digits);
    } else {
        lemma_decimal_value_grows(digits, n + 1);
        let longer = digits.take(n + 1);
        assert(longer.drop_last() =~= digits.take(n));
        assert(is_digit(longer.last()));
    }
}

/// A run of digits writes a number that is not negative.
pub proof fn lemma_decimal_value_nonnegative(digits: Seq<char>)
    requires
        all_digits(digits),
    ensures
        0 <= decimal_value(digits),
    decreases digits.len(),
{
    if digits.len() > 0 {
        lemma_decimal_value_nonnegative(digits.drop_last());
        assert(is_digit(digits.last()));
    }
}

/// Reads a `u32` written in decimal. `None` for an empty string, a sign
/// without digits, any character that is not a digit, or a value above
/// `u32::MAX`.
pub fn parse_u32(s: &str) -> (value: Option<u32>)
    ensures
        value == parsed_u32(s@),
{
    let chars = chars_of(s);
    let first: usize = if chars.len() > 0 && chars[0] == '+' {
        1
    } else {
        0
    };
    let ghost digits = unsigned_digits(s@);
    proof {
        assert(digits =~= chars@.skip(first as int));
    }
    if first == chars.len() {
        return None;
    }
    let mut value: u32 = 0;
    let mut i: usize = first;
    while i < chars.len()
        invariant
            chars@ == s@,
            digits == chars@.skip(first as int),
            digits == unsigned_digits(s@),
            first <= i <= chars.len(),
            all_digits(digits.take(i - first)),
            value == decimal_value(digits.take(i - first)),
        decreases chars.len() - i,
    {
        let c = chars[i];
        let ghost seen = digits.take(i - first);
        let ghost next = digits.take(i - first + 1);
        proof {
            assert(next.drop_last() =~= seen);
            assert(digits[i - first] == c);
            assert(next.last() == c);
            assert(decimal_value(next) == decimal_value(seen) * 10 + digit_value(c));
        }
        if c < '0' || c > '9' {
            proof {
                assert(!is_digit(digits[i - first]));
                assert(!all_digits(digits));
            }
            return None;
        }
        let d: u32 = (c as u32) - ('0' as u32);
        assert(d == digit_value(c));
        if value > (u32::MAX - d) / 10 {
            proof {
                assert(value * 10 + d > u32::MAX);
                if all_digits(digits) {
                    lemma_decimal_value_grows(digits, i - first + 1);
                }
            }
            return None;
        }
        value = value * 10 + d;
        i += 1;
        proof {
            assert forall|k: int| 0 <= k < next.len() implies is_digit(#[trigger] next[k]) by {
                if k < seen.len() {
                    assert(seen[k] == next[k]);
                }
            }
        }
    }
    proof {
        assert(digits.take(i - first) =~= digits);
    }
    Some(value)
}

} // verus!
