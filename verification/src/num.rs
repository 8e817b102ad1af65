//! Decimal parsing of user-supplied numeric argument values, following the
//! unsigned-integer grammar: an optional leading `+` sign followed by one or
//! more decimal digits.

use vstd::prelude::*;

verus! {

/// A decimal digit `'0'..='9'`.
pub open spec fn is_dec_digit(c: char) -> bool {
    '0' <= c && c <= '9'
}

/// Numeric value of a decimal digit.
pub open spec fn digit_value(c: char) -> nat {
    (c as int - '0' as int) as nat
}

/// Every character of `s` is a decimal digit.
pub open spec fn all_dec_digits(s: Seq<char>) -> bool {
    forall|i: int| 0 <= i < s.len() ==> is_dec_digit(#[trigger] s[i])
}

/// `s` without its optional leading `+` sign: the digit part of a
/// well-formed unsigned number.
pub open spec fn strip_sign(s: Seq<char>) -> Seq<char> {
    if s.len() > 0 && s[0] == '+' {
        s.drop_first()
    } else {
        s
    }
}

/// The number denoted by a string of decimal digits, most significant first.
pub open spec fn dec_value(s: Seq<char>) -> nat
    decreases s.len(),
{
    if s.len() == 0 {
        0
    } else {
        dec_value(s.drop_last()) * 10 + digit_value(s.last())
    }
}

/// `s` denotes a `u64`: after an optional leading `+` sign, non-empty, all
/// digits, and within range.
pub open spec fn valid_dec_u64(s: Seq<char>) -> bool {
    strip_sign(s).len() > 0 && all_dec_digits(strip_sign(s)) && dec_value(strip_sign(s))
        <= u64::MAX
}

/// `s` denotes a `usize`: after an optional leading `+` sign, non-empty,
/// all digits, and within range.
pub open spec fn valid_dec_usize(s: Seq<char>) -> bool {
    strip_sign(s).len() > 0 && all_dec_digits(strip_sign(s)) && dec_value(strip_sign(s))
        <= usize::MAX
}

/// The value of a longer prefix of a digit string is at least the value of a
/// shorter one: appending digits never decreases the denoted number.
proof fn lemma_dec_value_prefix_le(s: Seq<char>, i: int, j: int)
    requires
        0 <= i <= j <= s.len(),
    ensures
        dec_value(s.subrange(0, i)) <= dec_value(s.subrange(0, j)),
    decreases j - i,
{
    if i < j {
        lemma_dec_value_prefix_le(s, i, j - 1);
        assert(s.subrange(0, j).drop_last() =~= s.subrange(0, j - 1));
        assert(dec_value(s.subrange(0, j)) == dec_value(s.subrange(0, j - 1)) * 10
            + digit_value(s.subrange(0, j).last()));
    }
}

/// Parses an optional leading `+` sign followed by decimal digits into a
/// `u64`, the grammar of Rust's unsigned-integer parsing. Returns `None`
/// exactly when the digit part is empty, holds a non-digit character, or
/// denotes a number too large for `u64`.
pub fn parse_u64(s: &str) -> (r: Option<u64>)
    ensures
        r is Some <==> valid_dec_u64(s@),
        r is Some ==> r->0 == dec_value(strip_sign(s@)),
{
    let n = s.unicode_len();
    let start: usize = if n > 0 && s.get_char(0) == '+' {
        1
    } else {
        0
    };
    let ghost t = strip_sign(s@);
    proof {
        assert(t =~= s@.subrange(start as int, n as int));
    }
    if n == start {
        return None;
    }
    let mut acc: u64 = 0;
    let mut i: usize = start;
    while i < n
        invariant
            n == s@.len(),
            t == strip_sign(s@),
            t =~= s@.subrange(start as int, n as int),
            start <= i <= n,
            all_dec_digits(t.subrange(0, i - start)),
            acc == dec_value(t.subrange(0, i - start)),
        decreases n - i,
    {
        let c = s.get_char(i);
        proof {
            assert(t[i - start] == s@[i as int]);
        }
        let code = c as u32;
        if code < 48 || code > 57 {
            assert(!is_dec_digit(t[i - start]));
            return None;
        }
        let d = (code - 48) as u64;
        proof {
            assert(t.subrange(0, i - start + 1).drop_last() =~= t.subrange(0, i - start));
            assert(t.subrange(0, i - start + 1).last() == t[i - start]);
            assert(digit_value(t[i - start]) == d);
        }
        let shifted = match acc.checked_mul(10) {
            Some(v) => v,
            None => {
                proof {
                    assert(dec_value(t.subrange(0, i - start + 1)) > u64::MAX);
                    lemma_dec_value_prefix_le(t, i - start + 1, t.len() as int);
                    assert(t.subrange(0, t.len() as int) =~= t);
                }
                return None;
            },
        };
        acc = match shifted.checked_add(d) {
            Some(v) => v,
            None => {
                proof {
                    assert(dec_value(t.subrange(0, i - start + 1)) > u64::MAX);
                    lemma_dec_value_prefix_le(t, i - start + 1, t.len() as int);
                    assert(t.subrange(0, t.len() as int) =~= t);
                }
                return None;
            },
        };
        i = i + 1;
    }
    proof {
        assert(t.subrange(0, (n - start) as int) =~= t);
    }
    Some(acc)
}

/// Parses an optional leading `+` sign followed by decimal digits into a
/// `usize`, the grammar of Rust's unsigned-integer parsing. Returns `None`
/// exactly when the digit part is empty, holds a non-digit character, or
/// denotes a number too large for `usize`.
pub fn parse_usize(s: &str) -> (r: Option<usize>)
    ensures
        r is Some <==> valid_dec_usize(s@),
        r is Some ==> r->0 == dec_value(strip_sign(s@)),
{
    match parse_u64(s) {
        Some(v) => {
            if v <= usize::MAX as u64 {
                Some(v as usize)
            } else {
                None
            }
        },
        None => None,
    }
}

} // verus!
