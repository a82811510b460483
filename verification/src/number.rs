//! Decimal numbers in configuration values: an optional sign, then digits
//! and nothing else.

use vstd::prelude::*;

verus! {

/// An ASCII decimal digit.
pub open spec fn is_digit(c: char) -> bool {
    '0' <= c && c <= '9'
}

/// The number that a digit stands for.
pub open spec fn digit_value(c: char) -> int {
    c as int - '0' as int
}

/// The number that a run of digits writes, most significant digit first.
pub open spec fn decimal_value(s: Seq<char>) -> int
    decreases s.len(),
{
    if s.len() == 0 {
        0
    } else {
        decimal_value(s.drop_last()) * 10 + digit_value(s.last())
    }
}

/// At least one character, and all of them digits.
pub open spec fn is_number(s: Seq<char>) -> bool {
    s.len() > 0 && forall|i: int| 0 <= i < s.len() ==> is_digit(#[trigger] s[i])
}

/// What a run of digits writes, if it is one.
pub open spec fn digits_of(s: Seq<char>) -> Option<int> {
    if is_number(s) {
        Some(decimal_value(s))
    } else {
        None
    }
}

/// The value of a text that may begin with a plus sign.
pub open spec fn unsigned_of(s: Seq<char>) -> Option<int> {
    if s.len() > 0 && s[0] == '+' {
        digits_of(s.subrange(1, s.len() as int))
    } else {
        digits_of(s)
    }
}

/// The value of a text that may begin with a plus or a minus sign.
pub open spec fn signed_of(s: Seq<char>) -> Option<int> {
    if s.len() > 0 && s[0] == '-' {
        match digits_of(s.subrange(1, s.len() as int)) {
            Some(v) => Some(-v),
            None => None,
        }
    } else {
        unsigned_of(s)
    }
}

/// The text as an `i64`: signed, and inside the type's range.
pub open spec fn i64_of(s: Seq<char>) -> Option<i64> {
    match signed_of(s) {
        Some(v) => if i64::MIN <= v <= i64::MAX {
            Some(v as i64)
        } else {
            None
        },
        None => None,
    }
}

/// The text as a `u64`: no minus sign, and inside the type's range.
pub open spec fn u64_of(s: Seq<char>) -> Option<u64> {
    match unsigned_of(s) {
        Some(v) => if 0 <= v <= u64::MAX {
            Some(v as u64)
        } else {
            None
        },
        None => None,
    }
}

/// The text as a `u16`: no minus sign, and inside the type's range.
pub open spec fn u16_of(s: Seq<char>) -> Option<u16> {
    match unsigned_of(s) {
        Some(v) => if 0 <= v <= u16::MAX {
            Some(v as u16)
        } else {
            None
        },
        None => None,
    }
}

proof fn lemma_value_nonnegative(s: Seq<char>)
    requires
        forall|i: int| 0 <= i < s.len() ==> is_digit(#[trigger] s[i]),
    ensures
        decimal_value(s) >= 0,
    decreases s.len(),
{
    if s.len() > 0 {
        lemma_value_nonnegative(s.drop_last());
    }
}

/// Among digits, a longer text writes no smaller a number than its prefix.
proof fn lemma_value_grows(s: Seq<char>, k: int)
    requires
        0 <= k <= s.len(),
        forall|i: int| 0 <= i < s.len() ==> is_digit(#[trigger] s[i]),
    ensures
        decimal_value(s) >= decimal_value(s.subrange(0, k)),
    decreases s.len(),
{
    if k == s.len() {
        assert(s.subrange(0, k) =~= s);
    } else {
        lemma_value_grows(s.drop_last(), k);
        lemma_value_nonnegative(s.drop_last());
        assert(s.drop_last().subrange(0, k) =~= s.subrange(0, k));
    }
}

fn digit(c: char) -> (r: Option<u64>)
    ensures
        r is Some == is_digit(c),
        r is Some ==> r->0 == digit_value(c),
{
    if '0' <= c && c <= '9' {
        Some((c as u32 - '0' as u32) as u64)
    } else {
        None
    }
}

/// Reads the digits of `s` from position `start` to the end, as a number of
/// at most `limit`.
fn parse_digits(s: &str, start: usize, limit: u64) -> (r: Option<u64>)
    requires
        start <= s@.len(),
    ensures
        r is Some <==> is_number(s@.subrange(start as int, s@.len() as int)) && decimal_value(
            s@.subrange(start as int, s@.len() as int),
        ) <= limit,
        r is Some ==> r->0 == decimal_value(s@.subrange(start as int, s@.len() as int)),
{
    let n: usize = s.unicode_len();
    let ghost tail: Seq<char> = s@.subrange(start as int, n as int);
    if start == n {
        return None;
    }
    let mut acc: u64 = 0;
    let mut i: usize = start;
    while i < n
        invariant
            n == s@.len(),
            start <= i <= n,
            tail == s@.subrange(start as int, n as int),
            forall|k: int| 0 <= k < i - start ==> is_digit(#[trigger] tail[k]),
            acc == decimal_value(tail.subrange(0, i - start)),
            acc <= limit,
        decreases n - i,
    {
        let c: char = s.get_char(i);
        assert(tail[i - start] == c);
        proof {
            assert(tail.subrange(0, i - start + 1).drop_last() =~= tail.subrange(0, i - start));
        }
        match digit(c) {
            None => {
                return None;
            },
            Some(d) => {
                if d > limit || acc > (limit - d) / 10 {
                    proof {
                        if is_number(tail) {
                            lemma_value_grows(tail, i - start + 1);
                        }
                    }
                    return None;
                }
                acc = acc * 10 + d;
            },
        }
        i += 1;
    }
    assert(tail.subrange(0, n - start) =~= tail);
    Some(acc)
}

/// Reads a signed decimal number: an optional `+` or `-`, then at least one
/// digit, nothing before, between or after, and a value that an `i64` holds.
pub fn parse_i64(s: &str) -> (r: Option<i64>)
    ensures
        r == i64_of(s@),
{
    let n: usize = s.unicode_len();
    if n == 0 {
        return None;
    }
    let first: char = s.get_char(0);
    if first == '-' {
        match parse_digits(s, 1, 0x8000_0000_0000_0000u64) {
            Some(m) => {
                if m == 0x8000_0000_0000_0000u64 {
                    Some(i64::MIN)
                } else {
                    Some(0 - (m as i64))
                }
            },
            None => None,
        }
    } else {
        let start: usize = if first == '+' {
            1
        } else {
            0
        };
        assert(s@.subrange(0, n as int) =~= s@);
        match parse_digits(s, start, 0x7fff_ffff_ffff_ffffu64) {
            Some(m) => Some(m as i64),
            None => None,
        }
    }
}

/// Reads an unsigned decimal number: an optional `+`, then at least one
/// digit and nothing else, and a value of at most `limit`.
fn parse_unsigned(s: &str, limit: u64) -> (r: Option<u64>)
    ensures
        r is Some <==> unsigned_of(s@) is Some && unsigned_of(s@)->0 <= limit,
        r is Some ==> r->0 == unsigned_of(s@)->0,
{
    let n: usize = s.unicode_len();
    if n == 0 {
        return None;
    }
    let start: usize = if s.get_char(0) == '+' {
        1
    } else {
        0
    };
    assert(s@.subrange(0, n as int) =~= s@);
    parse_digits(s, start, limit)
}

/// Reads an unsigned decimal number that a `u64` holds.
pub fn parse_u64(s: &str) -> (r: Option<u64>)
    ensures
        r == u64_of(s@),
{
    parse_unsigned(s, u64::MAX)
}

/// Reads an unsigned decimal number that a `u16` holds.
pub fn parse_u16(s: &str) -> (r: Option<u16>)
    ensures
        r == u16_of(s@),
{
    match parse_unsigned(s, 65535) {
        Some(v) => Some(v as u16),
        None => None,
    }
}

} // verus!
