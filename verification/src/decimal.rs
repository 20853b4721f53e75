//! Decimal numerals: reading unsigned numbers from text, writing integers as
//! text, and the fixed-point `Percentage` that progress reports carry.

use crate::text::{find_char, first_index_of, slice_chars, string_of};
use vstd::prelude::*;

verus! {

/// An ASCII decimal digit.
pub open spec fn is_digit(c: char) -> bool {
    48 <= c as u32 && c as u32 <= 57
}

/// The number a digit stands for.
pub open spec fn digit_value(c: char) -> nat {
    (c as u32 - 48) as nat
}

/// Every character of `s` is an ASCII decimal digit.
pub open spec fn all_digits(s: Seq<char>) -> bool {
    forall|i: int| 0 <= i < s.len() ==> is_digit(#[trigger] s[i])
}

/// The number that a run of digits denotes, most significant digit first.
pub open spec fn digits_value(s: Seq<char>) -> nat
    decreases s.len(),
{
    if s.len() == 0 {
        0
    } else {
        digits_value(s.drop_last()) * 10 + digit_value(s.last())
    }
}

/// What `s` denotes as an unsigned number no greater than `max`: `None` when
/// `s` is empty, holds anything but ASCII digits, or denotes a greater number.
pub open spec fn number_in(s: Seq<char>, max: nat) -> Option<nat> {
    if s.len() > 0 && all_digits(s) && digits_value(s) <= max {
        Some(digits_value(s))
    } else {
        None
    }
}

/// What `s` denotes as a `u64`.
pub open spec fn parsed_u64(s: Seq<char>) -> Option<u64> {
    match number_in(s, u64::MAX as nat) {
        Some(n) => Some(n as u64),
        None => None,
    }
}

/// What `s` denotes as a `u32`.
pub open spec fn parsed_u32(s: Seq<char>) -> Option<u32> {
    match number_in(s, u32::MAX as nat) {
        Some(n) => Some(n as u32),
        None => None,
    }
}

/// A run of digits denotes at least as much as any of its prefixes.
pub proof fn digits_value_grows(s: Seq<char>, k: int)
    requires
        0 <= k <= s.len(),
    ensures
        digits_value(s.take(k)) <= digits_value(s),
    decreases s.len(),
{
    if k == s.len() {
        assert(s.take(k) =~= s);
    } else {
        assert(s.drop_last().take(k) =~= s.take(k));
        digits_value_grows(s.drop_last(), k);
    }
}

/// Reads an unsigned decimal number that fits in 64 bits.
pub fn parse_u64(v: &[char]) -> (r: Option<u64>)
    ensures
        r == parsed_u64(v@),
{
    if v.len() == 0 {
        return None;
    }
    let mut acc: u64 = 0;
    let mut i: usize = 0;
    while i < v.len()
        invariant
            i <= v.len(),
            all_digits(v@.take(i as int)),
            acc == digits_value(v@.take(i as int)),
        decreases v.len() - i,
    {
        let c = v[i];
        let u: u32 = c as u32;
        if u < 48 || u > 57 {
            assert(!is_digit(v@[i as int]));
            return None;
        }
        let d: u64 = (u - 48) as u64;
        proof {
            assert(v@.take(i + 1).drop_last() =~= v@.take(i as int));
            assert(v@.take(i + 1).last() == c);
        }
        if acc > (u64::MAX - d) / 10 {
            proof {
                assert(digits_value(v@.take(i + 1)) > u64::MAX);
                digits_value_grows(v@, i + 1);
            }
            return None;
        }
        acc = acc * 10 + d;
        i += 1;
    }
    assert(v@.take(v@.len() as int) =~= v@);
    Some(acc)
}

/// Reads an unsigned decimal number that fits in 32 bits.
pub fn parse_u32(v: &[char]) -> (r: Option<u32>)
    ensures
        r == parsed_u32(v@),
{
    match parse_u64(v) {
        Some(n) => {
            if n <= 0xffff_ffff {
                Some(n as u32)
            } else {
                None
            }
        },
        None => {
            proof {
                if v@.len() > 0 && all_digits(v@) {
                    assert(digits_value(v@) > u64::MAX);
                }
            }
            None
        },
    }
}

/// The character for a digit below ten.
pub open spec fn digit_char(d: nat) -> char {
    ((48 + d) as u8) as char
}

/// The decimal numeral of `n`, without sign or leading zeros.
pub open spec fn decimal_text(n: nat) -> Seq<char>
    decreases n,
{
    if n < 10 {
        seq![digit_char(n)]
    } else {
        decimal_text(n / 10).push(digit_char(n % 10))
    }
}

/// The decimal numeral of a signed number: a minus sign before the digits of
/// a negative one.
pub open spec fn signed_decimal_text(n: int) -> Seq<char> {
    if n < 0 {
        seq!['-'] + decimal_text((-n) as nat)
    } else {
        decimal_text(n as nat)
    }
}

/// Appends the decimal numeral of `n` to `out`.
pub fn push_decimal(out: &mut Vec<char>, n: u64)
    ensures
        final(out)@ == old(out)@ + decimal_text(n as nat),
    decreases n,
{
    if n >= 10 {
        push_decimal(out, n / 10);
    }
    let d: u8 = (n % 10) as u8;
    out.push((48 + d) as char);
    proof {
        if n >= 10 {
            assert(final(out)@ =~= old(out)@ + decimal_text(n as nat));
        } else {
            assert(final(out)@ =~= old(out)@ + decimal_text(n as nat));
        }
    }
}

/// The decimal numeral of `n` as a character buffer.
pub fn decimal_chars(n: u64) -> (v: Vec<char>)
    ensures
        v@ == decimal_text(n as nat),
{
    let mut v: Vec<char> = Vec::new();
    push_decimal(&mut v, n);
    assert(Seq::<char>::empty() + decimal_text(n as nat) =~= decimal_text(n as nat));
    v
}

/// The decimal numeral of a signed number as a character buffer.
pub fn signed_decimal_chars(n: i64) -> (v: Vec<char>)
    ensures
        v@ == signed_decimal_text(n as int),
{
    let mut v: Vec<char> = Vec::new();
    if n < 0 {
        v.push('-');
        let m: u64 = if n == i64::MIN {
            9223372036854775808u64
        } else {
            (-n) as u64
        };
        push_decimal(&mut v, m);
        assert(v@ =~= seq!['-'] + decimal_text((-n) as nat));
    } else {
        push_decimal(&mut v, n as u64);
        assert(v@ =~= decimal_text(n as nat));
    }
    v
}

/// The decimal numeral of `n` as a string.
pub fn decimal_string(n: u64) -> (s: String)
    ensures
        s@ == decimal_text(n as nat),
{
    let v = decimal_chars(n);
    string_of(v.as_slice())
}

/// The decimal numeral of a signed number as a string.
pub fn signed_decimal_string(n: i64) -> (s: String)
    ensures
        s@ == signed_decimal_text(n as int),
{
    let v = signed_decimal_chars(n);
    string_of(v.as_slice())
}

/// What `s` denotes as a `u32` where a plus sign may stand before the
/// digits.
pub open spec fn plus_parsed_u32(s: Seq<char>) -> Option<u32> {
    if s.len() > 0 && s[0] == '+' {
        parsed_u32(s.skip(1))
    } else {
        parsed_u32(s)
    }
}

/// Reads an unsigned decimal number that fits in 32 bits and may begin with
/// a plus sign.
pub fn parse_plus_u32(v: &[char]) -> (r: Option<u32>)
    ensures
        r == plus_parsed_u32(v@),
{
    if v.len() > 0 && v[0] == '+' {
        let mut digits: Vec<char> = Vec::new();
        let mut i: usize = 1;
        while i < v.len()
            invariant
                1 <= i <= v.len(),
                digits@ == v@.subrange(1, i as int),
            decreases v.len() - i,
        {
            digits.push(v[i]);
            assert(v@.subrange(1, i as int).push(v@[i as int]) =~= v@.subrange(1, i + 1));
            i += 1;
        }
        assert(v@.subrange(1, v@.len() as int) =~= v@.skip(1));
        parse_u32(digits.as_slice())
    } else {
        parse_u32(v)
    }
}

/// What `s` denotes as an `i64`: digits, with a plus or a minus sign before
/// them or none.
pub open spec fn parsed_i64(s: Seq<char>) -> Option<i64> {
    if s.len() > 0 && s[0] == '-' {
        match number_in(s.skip(1), 9223372036854775808) {
            Some(n) => Some((-(n as int)) as i64),
            None => None,
        }
    } else if s.len() > 0 && s[0] == '+' {
        match number_in(s.skip(1), 9223372036854775807) {
            Some(n) => Some(n as i64),
            None => None,
        }
    } else {
        match number_in(s, 9223372036854775807) {
            Some(n) => Some(n as i64),
            None => None,
        }
    }
}

/// Reads a signed decimal number that fits in 64 bits.
pub fn parse_i64(v: &[char]) -> (r: Option<i64>)
    ensures
        r == parsed_i64(v@),
{
    let signed = v.len() > 0 && (v[0] == '-' || v[0] == '+');
    let negative = v.len() > 0 && v[0] == '-';
    let digits: Vec<char> = if signed {
        let d = slice_chars(v, 1, v.len());
        assert(d@ =~= v@.skip(1));
        d
    } else {
        let d = slice_chars(v, 0, v.len());
        assert(d@ =~= v@);
        d
    };
    match parse_u64(digits.as_slice()) {
        Some(n) => {
            if negative {
                if n <= 9223372036854775807 {
                    Some(-(n as i64))
                } else if n == 9223372036854775808 {
                    Some(i64::MIN)
                } else {
                    None
                }
            } else if n <= 9223372036854775807 {
                Some(n as i64)
            } else {
                None
            }
        },
        None => None,
    }
}

/// A percentage held exactly as a decimal fraction: it stands for
/// `units / 10^decimals`. `45.2` is `units = 452, decimals = 1`.
#[derive(Clone, Copy, Debug, PartialEq, Eq, Structural)]
pub struct Percentage {
    pub units: u64,
    pub decimals: usize,
}

/// The digits before the decimal point of a numeral.
pub open spec fn whole_part(s: Seq<char>) -> Seq<char> {
    s.take(first_index_of(s, '.'))
}

/// The digits after the decimal point of a numeral; empty without a point.
pub open spec fn fraction_part(s: Seq<char>) -> Seq<char> {
    if first_index_of(s, '.') < s.len() {
        s.skip(first_index_of(s, '.') + 1)
    } else {
        Seq::empty()
    }
}

/// How many digits of the fraction are kept, counting on from `k`: as many
/// as leave the digits of the whole part and of the fraction, taken
/// together, within 64 bits.
pub open spec fn kept_decimals(whole: Seq<char>, fraction: Seq<char>, k: int) -> int
    decreases fraction.len() - k,
{
    if 0 <= k < fraction.len() && digits_value(whole + fraction.take(k + 1)) <= u64::MAX {
        kept_decimals(whole, fraction, k + 1)
    } else {
        k
    }
}

/// What a plain decimal numeral (`digits` or `digits.digits`, ASCII digits
/// only) denotes. `None` when `s` is not of that form, or when its whole
/// part exceeds 64 bits. Digits at the end of the fraction that would take
/// the number beyond 64 bits are dropped: the numeral is then cut off, not
/// rounded.
pub open spec fn decimal_of(s: Seq<char>) -> Option<Percentage> {
    if (first_index_of(s, '.') < s.len() && fraction_part(s).len() == 0) || parsed_u64(
        whole_part(s),
    ) is None || !all_digits(fraction_part(s)) {
        None
    } else {
        Some(
            Percentage {
                units: digits_value(
                    whole_part(s) + fraction_part(s).take(
                        kept_decimals(whole_part(s), fraction_part(s), 0),
                    ),
                ) as u64,
                decimals: kept_decimals(whole_part(s), fraction_part(s), 0) as usize,
            },
        )
    }
}

/// No more digits are kept than the fraction has, and none is given back.
pub proof fn kept_decimals_bounds(whole: Seq<char>, fraction: Seq<char>, k: int)
    requires
        0 <= k <= fraction.len(),
    ensures
        k <= kept_decimals(whole, fraction, k) <= fraction.len(),
    decreases fraction.len() - k,
{
    if k < fraction.len() && digits_value(whole + fraction.take(k + 1)) <= u64::MAX {
        kept_decimals_bounds(whole, fraction, k + 1);
    }
}

/// The digits that are kept fit 64 bits, where those before them do.
pub proof fn kept_decimals_fit(whole: Seq<char>, fraction: Seq<char>, k: int)
    requires
        0 <= k <= fraction.len(),
        digits_value(whole + fraction.take(k)) <= u64::MAX,
    ensures
        digits_value(whole + fraction.take(kept_decimals(whole, fraction, k))) <= u64::MAX,
    decreases fraction.len() - k,
{
    if k < fraction.len() && digits_value(whole + fraction.take(k + 1)) <= u64::MAX {
        kept_decimals_fit(whole, fraction, k + 1);
    }
}

/// Where all digits fit, all are kept.
pub proof fn all_decimals_kept_where_they_fit(whole: Seq<char>, fraction: Seq<char>, k: int)
    requires
        0 <= k <= fraction.len(),
        digits_value(whole + fraction) <= u64::MAX,
    ensures
        kept_decimals(whole, fraction, k) == fraction.len(),
    decreases fraction.len() - k,
{
    if k < fraction.len() {
        assert((whole + fraction).take(whole.len() + k + 1) =~= whole + fraction.take(k + 1));
        digits_value_grows(whole + fraction, whole.len() + k + 1);
        all_decimals_kept_where_they_fit(whole, fraction, k + 1);
    }
}

/// Reads a plain decimal numeral.
pub fn parse_decimal(v: &[char]) -> (r: Option<Percentage>)
    ensures
        r == decimal_of(v@),
{
    let dot = find_char(v, '.');
    let whole = slice_chars(v, 0, dot);
    assert(whole@ =~= whole_part(v@));
    let mut units: u64 = match parse_u64(whole.as_slice()) {
        Some(u) => u,
        None => {
            return None;
        },
    };
    if dot < v.len() && dot + 1 == v.len() {
        return None;
    }
    let start: usize = if dot < v.len() {
        dot + 1
    } else {
        v.len()
    };
    let ghost fraction = fraction_part(v@);
    proof {
        assert(fraction =~= v@.subrange(start as int, v@.len() as int));
        assert(whole@ + fraction.take(0) =~= whole@);
    }
    let mut kept: usize = 0;
    let mut full = false;
    let mut i: usize = start;
    while i < v.len()
        invariant
            start <= i <= v.len(),
            fraction == fraction_part(v@),
            fraction == v@.subrange(start as int, v@.len() as int),
            whole@ == whole_part(v@),
            !(first_index_of(v@, '.') < v@.len() && fraction.len() == 0),
            all_digits(fraction.take(i - start)),
            kept <= i - start,
            units == digits_value(whole@ + fraction.take(kept as int)),
            !full ==> kept == i - start,
            kept_decimals(whole@, fraction, 0) == kept_decimals(whole@, fraction, kept as int),
            full ==> kept_decimals(whole@, fraction, kept as int) == kept,
        decreases v.len() - i,
    {
        let c = v[i];
        let u: u32 = c as u32;
        assert(fraction[i - start] == c);
        if u < 48 || u > 57 {
            assert(!is_digit(fraction[i - start]));
            return None;
        }
        assert(fraction.take(i - start + 1) =~= fraction.take(i - start).push(c));
        if !full {
            let d: u64 = (u - 48) as u64;
            proof {
                let longer = whole@ + fraction.take(kept + 1);
                assert(longer.drop_last() =~= whole@ + fraction.take(kept as int));
                assert(longer.last() == c);
            }
            if units > (u64::MAX - d) / 10 {
                full = true;
            } else {
                units = units * 10 + d;
                kept += 1;
            }
        }
        i += 1;
    }
    assert(fraction.take(fraction.len() as int) =~= fraction);
    Some(Percentage { units, decimals: kept })
}

} // verus!
