//! Decimal rendering of small numbers, and the text shown on the badge.

use vstd::prelude::*;

verus! {

/// The character of decimal digit `d` (`0 <= d < 10`).
pub open spec fn digit_char(d: int) -> char {
    ((d + 48) as u8) as char
}

/// The decimal digits of `n`, most significant first, with no leading zero.
pub open spec fn decimal_chars(n: nat) -> Seq<char>
    decreases n,
{
    if n < 10 {
        seq![digit_char(n as int)]
    } else {
        decimal_chars(n / 10).push(digit_char((n % 10) as int))
    }
}

/// The symbol shown in place of digits once usage reaches 100%.
pub const OVERFLOW_SYMBOL: char = '!';

/// The text the badge shows for `percentage`: its decimal digits below 100,
/// the overflow symbol from 100 on.
pub open spec fn badge_text_spec(percentage: int) -> Seq<char> {
    if percentage >= 100 {
        seq![OVERFLOW_SYMBOL]
    } else {
        decimal_chars(percentage as nat)
    }
}

/// A one-character string holding the digit `d`.
fn digit_str(d: u8) -> (r: &'static str)
    requires
        d < 10,
    ensures
        r@ == seq![digit_char(d as int)],
{
    match d {
        0 => { proof { reveal_strlit("0"); } "0" },
        1 => { proof { reveal_strlit("1"); } "1" },
        2 => { proof { reveal_strlit("2"); } "2" },
        3 => { proof { reveal_strlit("3"); } "3" },
        4 => { proof { reveal_strlit("4"); } "4" },
        5 => { proof { reveal_strlit("5"); } "5" },
        6 => { proof { reveal_strlit("6"); } "6" },
        7 => { proof { reveal_strlit("7"); } "7" },
        8 => { proof { reveal_strlit("8"); } "8" },
        _ => { proof { reveal_strlit("9"); } "9" },
    }
}

/// The decimal form of `n`, as `format!("{}", n)` writes it.
pub fn decimal_string(n: u8) -> (r: String)
    ensures
        r@ == decimal_chars(n as nat),
{
    proof {
        reveal_with_fuel(decimal_chars, 3);
    }
    if n < 10 {
        String::from_str(digit_str(n))
    } else if n < 100 {
        let mut s = String::from_str(digit_str(n / 10));
        s.append(digit_str(n % 10));
        s
    } else {
        let mut s = String::from_str(digit_str(n / 100));
        s.append(digit_str((n / 10) % 10));
        s.append(digit_str(n % 10));
        proof {
            assert((n as nat / 10) / 10 == n as nat / 100);
        }
        s
    }
}

/// The text the badge shows for `percentage`.
pub fn badge_text(percentage: u8) -> (r: String)
    ensures
        r@ == badge_text_spec(percentage as int),
{
    if percentage >= 100 {
        proof {
            reveal_strlit("!");
        }
        String::from_str("!")
    } else {
        decimal_string(percentage)
    }
}

/// Whether `c` is a decimal digit.
pub open spec fn is_digit(c: char) -> bool {
    '0' <= c && c <= '9'
}

/// The number that the decimal digits `s` spell.
pub open spec fn digits_value(s: Seq<char>) -> nat
    decreases s.len(),
{
    if s.len() == 0 {
        0
    } else {
        digits_value(s.drop_last()) * 10 + (s.last() as nat - '0' as nat) as nat
    }
}

/// `s` without one leading `+`, if it has one.
pub open spec fn unsigned_digits(s: Seq<char>) -> Seq<char> {
    if s.len() > 0 && s[0] == '+' {
        s.subrange(1, s.len() as int)
    } else {
        s
    }
}

/// Whether every character of `s` is a decimal digit.
pub open spec fn all_digits(s: Seq<char>) -> bool {
    forall|k: int| 0 <= k < s.len() ==> is_digit(#[trigger] s[k])
}

/// What `u32`'s `from_str` makes of `s`: an optional `+`, then one or more
/// decimal digits whose value fits in a `u32`; anything else is rejected.
pub open spec fn parse_u32_spec(s: Seq<char>) -> Option<u32> {
    let body = unsigned_digits(s);
    if body.len() > 0 && all_digits(body) && digits_value(body) <= u32::MAX {
        Some(digits_value(body) as u32)
    } else {
        None
    }
}

/// Whether the two strings hold the same characters.
pub fn same_text(a: &str, b: &str) -> (r: bool)
    ensures
        r == (a@ == b@),
{
    let n = a.unicode_len();
    if n != b.unicode_len() {
        return false;
    }
    let mut k: usize = 0;
    while k < n
        invariant
            n == a@.len(),
            n == b@.len(),
            k <= n,
            forall|j: int| 0 <= j < k ==> a@[j] == b@[j],
        decreases n - k,
    {
        if a.get_char(k) != b.get_char(k) {
            return false;
        }
        k = k + 1;
    }
    assert(a@ =~= b@);
    true
}

/// Whether `s` starts with `prefix`.
pub fn has_prefix(s: &str, prefix: &str) -> (r: bool)
    ensures
        r == (prefix@.len() <= s@.len() && s@.subrange(0, prefix@.len() as int) == prefix@),
{
    let n = prefix.unicode_len();
    if n > s.unicode_len() {
        return false;
    }
    let mut k: usize = 0;
    while k < n
        invariant
            n == prefix@.len(),
            n <= s@.len(),
            k <= n,
            forall|j: int| 0 <= j < k ==> s@[j] == prefix@[j],
        decreases n - k,
    {
        if s.get_char(k) != prefix.get_char(k) {
            assert(s@.subrange(0, n as int)[k as int] != prefix@[k as int]);
            return false;
        }
        k = k + 1;
    }
    assert(s@.subrange(0, n as int) =~= prefix@);
    true
}

/// Parses `s` as `u32`'s `from_str` does: an optional `+`, then decimal
/// digits; `None` when it is malformed or out of range.
pub fn parse_u32(s: &str) -> (r: Option<u32>)
    ensures
        r == parse_u32_spec(s@),
{
    let n = s.unicode_len();
    let ghost sv = s@;
    let start: usize = if n > 0 && s.get_char(0) == '+' {
        1
    } else {
        0
    };
    let ghost body = unsigned_digits(sv);
    if start == n {
        return None;
    }
    let limit: u64 = 0x1_0000_0000;
    let mut acc: u64 = 0;
    let mut k: usize = start;
    while k < n
        invariant
            n == sv.len(),
            sv == s@,
            start <= k <= n,
            start < n,
            body == sv.subrange(start as int, n as int),
            body == unsigned_digits(sv),
            limit == 0x1_0000_0000,
            forall|j: int| 0 <= j < k - start ==> is_digit(#[trigger] body[j]),
            acc as int == if digits_value(body.subrange(0, k - start)) < limit {
                digits_value(body.subrange(0, k - start)) as int
            } else {
                limit as int
            },
        decreases n - k,
    {
        let c = s.get_char(k);
        if !('0' <= c && c <= '9') {
            assert(body[k - start] == c);
            assert(!is_digit(body[k - start]));
            assert(!all_digits(body));
            return None;
        }
        let d = (c as u32 - '0' as u32) as u64;
        let ghost prefix = body.subrange(0, k - start);
        let ghost next = body.subrange(0, k + 1 - start);
        assert(next.drop_last() =~= prefix);
        assert(next.last() == c);
        acc = if acc * 10 + d < limit {
            acc * 10 + d
        } else {
            limit
        };
        k = k + 1;
    }
    assert(body.subrange(0, n - start) =~= body);
    if acc < limit {
        Some(acc as u32)
    } else {
        None
    }
}

} // verus!
