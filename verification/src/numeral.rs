//! Reading decimal numerals, as the inverse of writing them.

use vstd::prelude::*;
use crate::text::{decimal, digit_char, signed_decimal};

verus! {

/// The value of a decimal digit, if the character is one.
pub open spec fn digit_value(c: char) -> Option<nat> {
    if '0' <= c && c <= '9' {
        Some((c as u8 - 48) as nat)
    } else {
        None
    }
}

/// The number that a run of decimal digits stands for; nothing where the
/// run is empty or holds anything but digits.
pub open spec fn digits_value(s: Seq<char>) -> Option<nat>
    decreases s.len(),
{
    if s.len() == 0 {
        None
    } else {
        match digit_value(s.last()) {
            None => None,
            Some(d) => if s.len() == 1 {
                Some(d)
            } else {
                match digits_value(s.drop_last()) {
                    Some(v) => Some(v * 10 + d),
                    None => None,
                }
            },
        }
    }
}

/// Whether a numeral has no needless leading zero.
pub open spec fn no_leading_zero(s: Seq<char>) -> bool {
    s.len() == 1 || (s.len() > 1 && s[0] != '0')
}

/// The number that a decimal numeral stands for: a run of digits without a
/// needless leading zero.
pub open spec fn numeral_value(s: Seq<char>) -> Option<nat> {
    if no_leading_zero(s) {
        digits_value(s)
    } else {
        None
    }
}

/// The integer that a signed decimal numeral stands for: a numeral, or a
/// minus sign before the numeral of a positive number.
pub open spec fn signed_numeral_value(s: Seq<char>) -> Option<int> {
    if s.len() > 0 && s[0] == '-' {
        match numeral_value(s.drop_first()) {
            Some(v) => if v > 0 {
                Some(-(v as int))
            } else {
                None
            },
            None => None,
        }
    } else {
        match numeral_value(s) {
            Some(v) => Some(v as int),
            None => None,
        }
    }
}

/// A numeral is read back as the number that it was written for.
pub proof fn lemma_numeral_round_trip(n: nat)
    ensures
        decimal(n).len() >= 1,
        digit_value(decimal(n)[0]).is_some(),
        n > 0 ==> decimal(n)[0] != '0',
        no_leading_zero(decimal(n)),
        digits_value(decimal(n)) == Some(n),
        numeral_value(decimal(n)) == Some(n),
    decreases n,
{
    if n < 10 {
        assert(decimal(n) =~= seq![digit_char(n)]);
        assert(decimal(n).last() == digit_char(n));
    } else {
        lemma_numeral_round_trip(n / 10);
        let head = decimal(n / 10);
        let whole = decimal(n);
        assert(whole == head.push(digit_char(n % 10)));
        assert(whole.drop_last() =~= head);
        assert(whole.last() == digit_char(n % 10));
        assert(whole[0] == head[0]);
        assert(digit_value(digit_char(n % 10)) == Some(n % 10));
    }
}

/// A signed numeral is read back as the integer that it was written for.
pub proof fn lemma_signed_numeral_round_trip(n: int)
    ensures
        signed_numeral_value(signed_decimal(n)) == Some(n),
{
    if n < 0 {
        let magnitude = (-n) as nat;
        lemma_numeral_round_trip(magnitude);
        let text = signed_decimal(n);
        assert(text == seq!['-'] + decimal(magnitude));
        assert(text[0] == '-');
        assert(text.drop_first() =~= decimal(magnitude));
    } else {
        lemma_numeral_round_trip(n as nat);
        assert(decimal(n as nat)[0] != '-');
    }
}

/// A run of digits with a character that is no digit stands for nothing.
proof fn lemma_not_all_digits(s: Seq<char>, at: int)
    requires
        0 <= at < s.len(),
        digit_value(s[at]).is_none(),
    ensures
        digits_value(s).is_none(),
    decreases s.len(),
{
    if at == s.len() - 1 {
    } else {
        assert(s.drop_last()[at] == s[at]);
        lemma_not_all_digits(s.drop_last(), at);
    }
}

/// What a run of digits stands for is at least what each of its beginnings
/// stands for.
proof fn lemma_beginning_is_smaller(s: Seq<char>, k: int)
    requires
        1 <= k <= s.len(),
        digits_value(s).is_some(),
    ensures
        digits_value(s.take(k)).is_some(),
        digits_value(s.take(k)).unwrap() <= digits_value(s).unwrap(),
    decreases s.len() - k,
{
    if k == s.len() {
        assert(s.take(k) =~= s);
    } else {
        assert(s.drop_last().take(k) =~= s.take(k));
        lemma_beginning_is_smaller(s.drop_last(), k);
    }
}

/// Reads a decimal numeral that stands for a number up to `limit`.
pub fn parse_numeral(text: &str, limit: u64) -> (r: Option<u64>)
    ensures
        match r {
            Some(n) => numeral_value(text@) == Some(n as nat) && n <= limit,
            None => match numeral_value(text@) {
                Some(v) => v > limit,
                None => true,
            },
        },
{
    let n: usize = text.unicode_len();
    if n == 0 {
        return None;
    }
    if n > 1 && text.get_char(0) == '0' {
        return None;
    }
    let mut value: u64 = 0;
    let mut i: usize = 0;
    while i < n
        invariant
            n == text@.len(),
            n >= 1,
            i <= n,
            no_leading_zero(text@),
            value <= limit,
            i == 0 ==> value == 0,
            i >= 1 ==> digits_value(text@.take(i as int)) == Some(value as nat),
        decreases n - i,
    {
        let c = text.get_char(i);
        if !('0' <= c && c <= '9') {
            proof {
                lemma_not_all_digits(text@, i as int);
            }
            return None;
        }
        let d: u128 = (c as u8 - 48) as u128;
        let next: u128 = value as u128 * 10 + d;
        proof {
            let taken = text@.take(i + 1);
            assert(taken.last() == c);
            assert(taken.drop_last() =~= text@.take(i as int));
            assert(digits_value(taken) == Some(next as nat));
        }
        if next > limit as u128 {
            proof {
                if digits_value(text@).is_some() {
                    lemma_beginning_is_smaller(text@, i + 1);
                }
            }
            return None;
        }
        value = next as u64;
        i = i + 1;
    }
    assert(text@.take(n as int) =~= text@);
    Some(value)
}

/// Reads a signed decimal numeral that stands for an integer between
/// `-negative_limit` and `limit`.
pub fn parse_signed_numeral(text: &str, negative_limit: u64, limit: u64) -> (r: Option<i128>)
    ensures
        match r {
            Some(n) => signed_numeral_value(text@) == Some(n as int) && -negative_limit <= n
                <= limit,
            None => match signed_numeral_value(text@) {
                Some(v) => v > limit || v < -negative_limit,
                None => true,
            },
        },
{
    let n: usize = text.unicode_len();
    if n > 0 && text.get_char(0) == '-' {
        let rest = text.substring_char(1, n);
        assert(rest@ =~= text@.drop_first());
        match parse_numeral(rest, negative_limit) {
            Some(v) => {
                if v > 0 {
                    Some(-(v as i128))
                } else {
                    None
                }
            },
            None => None,
        }
    } else {
        match parse_numeral(text, limit) {
            Some(v) => Some(v as i128),
            None => None,
        }
    }
}

} // verus!
