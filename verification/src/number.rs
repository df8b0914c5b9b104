//! Decimal integers read from configuration text, as `str::parse` reads
//! them for `i64` and `u64`.
use vstd::prelude::*;

use crate::time::{digit_char, int_decimal, nat_digits};

verus! {

pub open spec fn is_digit(c: char) -> bool {
    '0' <= c && c <= '9'
}

pub open spec fn all_digits(s: Seq<char>) -> bool {
    forall|i: int| 0 <= i < s.len() ==> is_digit(#[trigger] s[i])
}

/// The value of a string of decimal digits.
pub open spec fn digits_value(s: Seq<char>) -> int
    decreases s.len(),
{
    if s.len() == 0 {
        0
    } else {
        digits_value(s.drop_last()) * 10 + (s.last() as int - 48)
    }
}

/// The integer that `s` spells: an optional `+` or `-` and one or more
/// decimal digits, nothing else.
pub open spec fn signed_value(s: Seq<char>) -> Option<int> {
    if s.len() > 0 && (s[0] == '+' || s[0] == '-') {
        let rest = s.drop_first();
        if rest.len() > 0 && all_digits(rest) {
            if s[0] == '-' {
                Some(-digits_value(rest))
            } else {
                Some(digits_value(rest))
            }
        } else {
            None
        }
    } else if s.len() > 0 && all_digits(s) {
        Some(digits_value(s))
    } else {
        None
    }
}

/// The integer that `s` spells without a sign: an optional `+` and one or
/// more decimal digits.
pub open spec fn unsigned_value(s: Seq<char>) -> Option<int> {
    if s.len() > 0 && s[0] == '-' {
        None
    } else {
        signed_value(s)
    }
}

/// What `s.parse::<i64>()` gives, as an `Option`.
pub open spec fn parse_i64_spec(s: Seq<char>) -> Option<i64> {
    match signed_value(s) {
        Some(v) => if i64::MIN <= v <= i64::MAX {
            Some(v as i64)
        } else {
            None
        },
        None => None,
    }
}

/// What `s.parse::<u64>()` gives, as an `Option`.
pub open spec fn parse_u64_spec(s: Seq<char>) -> Option<u64> {
    match unsigned_value(s) {
        Some(v) => if 0 <= v <= u64::MAX {
            Some(v as u64)
        } else {
            None
        },
        None => None,
    }
}

proof fn lemma_digits_value_nonneg(s: Seq<char>)
    requires
        all_digits(s),
    ensures
        digits_value(s) >= 0,
    decreases s.len(),
{
    if s.len() > 0 {
        lemma_digits_value_nonneg(s.drop_last());
    }
}

proof fn lemma_digits_value_grows(s: Seq<char>)
    requires
        all_digits(s),
        s.len() > 0,
    ensures
        digits_value(s) >= digits_value(s.drop_last()),
{
    lemma_digits_value_nonneg(s.drop_last());
}

/// The value of the digits of `s` from index `from` on, capped: `None`
/// when it exceeds `cap`, or when a character there is not a digit.
fn digits_up_to(s: &str, from: usize, cap: i128) -> (r: Option<i128>)
    requires
        from <= s@.len(),
        0 <= cap <= u64::MAX,
    ensures
        r matches Some(v) ==> all_digits(s@.subrange(from as int, s@.len() as int)) && v
            == digits_value(s@.subrange(from as int, s@.len() as int)) && 0 <= v <= cap,
        r is None ==> !all_digits(s@.subrange(from as int, s@.len() as int)) || digits_value(
            s@.subrange(from as int, s@.len() as int),
        ) > cap,
{
    let n = s.unicode_len();
    let mut i = from;
    let mut acc: i128 = 0;
    while i < n
        invariant
            n == s@.len(),
            from <= i <= n,
            0 <= cap <= u64::MAX,
            all_digits(s@.subrange(from as int, i as int)),
            acc == digits_value(s@.subrange(from as int, i as int)),
            0 <= acc <= cap,
        decreases n - i,
    {
        let c = s.get_char(i);
        let prefix = Ghost(s@.subrange(from as int, i as int));
        let next = Ghost(s@.subrange(from as int, i + 1));
        assert(next@.drop_last() =~= prefix@);
        if !('0' <= c && c <= '9') {
            proof {
                let whole = s@.subrange(from as int, n as int);
                assert(whole[i - from] == c);
                assert(!is_digit(whole[i - from]));
                assert(!all_digits(whole));
                assert(whole =~= s@.subrange(from as int, s@.len() as int));
            }
            return None;
        }
        let d = (c as u32 - 48) as i128;
        acc = acc * 10 + d;
        i = i + 1;
        assert(next@.last() == c);
        assert(acc == digits_value(next@));
        if acc > cap {
            proof {
                let whole = s@.subrange(from as int, n as int);
                if all_digits(whole) {
                    assert(whole.subrange(0, i - from) =~= next@);
                    lemma_prefix_value_bound(whole, (i - from) as int);
                }
            }
            return None;
        }
    }
    assert(s@.subrange(from as int, i as int) =~= s@.subrange(from as int, s@.len() as int));
    Some(acc)
}

proof fn lemma_prefix_value_bound(s: Seq<char>, k: int)
    requires
        all_digits(s),
        0 <= k <= s.len(),
    ensures
        digits_value(s) >= digits_value(s.subrange(0, k)),
    decreases s.len() - k,
{
    if k < s.len() {
        lemma_prefix_value_bound(s.drop_last(), k);
        assert(s.drop_last().subrange(0, k) =~= s.subrange(0, k));
        lemma_digits_value_grows(s);
    } else {
        assert(s.subrange(0, k) =~= s);
    }
}

/// `s.parse::<i64>().ok()`.
pub fn parse_i64(s: &str) -> (r: Option<i64>)
    ensures
        r == parse_i64_spec(s@),
{
    let n = s.unicode_len();
    if n == 0 {
        return None;
    }
    let first = s.get_char(0);
    if first == '+' || first == '-' {
        if n == 1 {
            return None;
        }
        let cap: i128 = if first == '-' {
            9223372036854775808
        } else {
            9223372036854775807
        };
        assert(s@.subrange(1, n as int) =~= s@.drop_first());
        match digits_up_to(s, 1, cap) {
            Some(v) => {
                if first == '-' {
                    Some((0 - v) as i64)
                } else {
                    Some(v as i64)
                }
            },
            None => None,
        }
    } else {
        assert(s@.subrange(0, n as int) =~= s@);
        match digits_up_to(s, 0, 9223372036854775807) {
            Some(v) => Some(v as i64),
            None => None,
        }
    }
}

/// `s.parse::<u64>().ok()`.
pub fn parse_u64(s: &str) -> (r: Option<u64>)
    ensures
        r == parse_u64_spec(s@),
{
    let n = s.unicode_len();
    if n == 0 {
        return None;
    }
    let first = s.get_char(0);
    if first == '-' {
        return None;
    }
    if first == '+' {
        if n == 1 {
            return None;
        }
        assert(s@.subrange(1, n as int) =~= s@.drop_first());
        match digits_up_to(s, 1, 18446744073709551615) {
            Some(v) => Some(v as u64),
            None => None,
        }
    } else {
        assert(s@.subrange(0, n as int) =~= s@);
        match digits_up_to(s, 0, 18446744073709551615) {
            Some(v) => Some(v as u64),
            None => None,
        }
    }
}


proof fn lemma_nat_digits_value(n: nat)
    ensures
        nat_digits(n).len() > 0,
        all_digits(nat_digits(n)),
        digits_value(nat_digits(n)) == n,
    decreases n,
{
    if n < 10 {
        let d = nat_digits(n);
        assert(d.drop_last() =~= Seq::<char>::empty());
        assert(digits_value(d.drop_last()) == 0);
        assert(digit_char(n as int) as int == n + 48);
        assert(digits_value(d) == digits_value(d.drop_last()) * 10 + (d.last() as int - 48));
    } else {
        lemma_nat_digits_value(n / 10);
        let d = nat_digits(n);
        assert(d.drop_last() =~= nat_digits(n / 10));
        assert(d.last() == digit_char((n % 10) as int));
        assert(digit_char((n % 10) as int) as int == n % 10 + 48);
        assert forall|i: int| 0 <= i < d.len() implies is_digit(#[trigger] d[i]) by {
            if i < d.len() - 1 {
                assert(d[i] == nat_digits(n / 10)[i]);
            }
        }
        assert(n == (n / 10) * 10 + n % 10);
        assert(digits_value(d) == digits_value(d.drop_last()) * 10 + (d.last() as int - 48));
    }
}

/// The decimal form of an integer spells that integer, and holds only
/// digits and a leading minus sign.
pub proof fn lemma_int_decimal_value(n: int)
    ensures
        signed_value(int_decimal(n)) == Some(n),
        int_decimal(n).len() > 0,
        forall|i: int|
            0 <= i < int_decimal(n).len() ==> is_digit(#[trigger] int_decimal(n)[i])
                || int_decimal(n)[i] == '-',
{
    if n < 0 {
        let m = (-n) as nat;
        lemma_nat_digits_value(m);
        let s = int_decimal(n);
        assert(s.drop_first() =~= nat_digits(m));
        assert(s[0] == '-');
        assert forall|i: int| 0 <= i < s.len() implies is_digit(#[trigger] s[i]) || s[i] == '-' by {
            if i > 0 {
                assert(s[i] == nat_digits(m)[i - 1]);
            }
        }
    } else {
        lemma_nat_digits_value(n as nat);
        let s = nat_digits(n as nat);
        assert(is_digit(s[0]));
    }
}

/// Distinct integers are written differently in decimal.
pub proof fn law_decimal_is_injective(a: int, b: int)
    requires
        int_decimal(a) == int_decimal(b),
    ensures
        a == b,
{
    lemma_int_decimal_value(a);
    lemma_int_decimal_value(b);
}

/// What `decimal_i64` writes, `parse_i64` reads back: the decimal form
/// of every `i64` parses to that number.
pub proof fn law_parse_i64_reads_decimal(n: i64)
    ensures
        parse_i64_spec(int_decimal(n as int)) == Some(n),
{
    lemma_int_decimal_value(n as int);
}

/// What `decimal_u64` writes, `parse_u64` reads back.
pub proof fn law_parse_u64_reads_decimal(n: u64)
    ensures
        parse_u64_spec(nat_digits(n as nat)) == Some(n),
{
    lemma_nat_digits_value(n as nat);
    assert(is_digit(nat_digits(n as nat)[0]));
}

} // verus!
