//! Decimal numbers as character sequences.
//!
//! The library renders integers (JSON integer values, HTTP status codes)
//! as decimal text and recognizes the strings that denote a 64-bit signed
//! integer, exactly as the parameter coercion needs them.

use vstd::prelude::*;

verus! {

/// Whether `c` is a decimal digit.
pub open spec fn is_digit(c: char) -> bool {
    '0' <= c && c <= '9'
}

/// The numeric value of a decimal digit.
pub open spec fn digit_val(c: char) -> int {
    c as int - '0' as int
}

/// The decimal digit with value `d` (meaningful for `0 <= d < 10`).
pub open spec fn digit_char(d: int) -> char {
    (d + '0' as int) as char
}

/// Whether every character of `s` is a decimal digit.
pub open spec fn all_digits(s: Seq<char>) -> bool {
    forall|i: int| 0 <= i < s.len() ==> is_digit(#[trigger] s[i])
}

/// The value of a nonempty digit string, most significant digit first.
pub open spec fn digits_val(s: Seq<char>) -> int
    decreases s.len(),
{
    if s.len() == 0 {
        0
    } else {
        digits_val(s.drop_last()) * 10 + digit_val(s.last())
    }
}

/// The canonical decimal rendering of a nonnegative integer, without
/// leading zeros.
pub open spec fn dec_rep(n: int) -> Seq<char>
    decreases n,
{
    if n < 10 {
        seq![digit_char(n)]
    } else {
        dec_rep(n / 10).push(digit_char(n % 10))
    }
}

/// The decimal rendering of a signed integer: a `-` sign followed by the
/// magnitude, or the bare magnitude.
pub open spec fn int_rep(n: int) -> Seq<char> {
    if n < 0 {
        seq!['-'] + dec_rep(-n)
    } else {
        dec_rep(n)
    }
}

/// The value denoted when `ds` is read as an optionally negated digit
/// string, or `None` where `ds` is not a digit string or the value falls
/// outside the 64-bit signed range.
pub open spec fn signed_digits_value(neg: bool, ds: Seq<char>) -> Option<int> {
    if ds.len() > 0 && all_digits(ds) {
        let v: int = if neg {
            -digits_val(ds)
        } else {
            digits_val(ds)
        };
        if i64::MIN <= v && v <= i64::MAX {
            Some(v)
        } else {
            None
        }
    } else {
        None
    }
}

/// The 64-bit signed integer denoted by `s`, in the grammar the standard
/// integer parser accepts: an optional sign followed by one or more
/// decimal digits, with the value in range.
pub open spec fn i64_string_value(s: Seq<char>) -> Option<int> {
    if s.len() > 0 && (s[0] == '+' || s[0] == '-') {
        signed_digits_value(s[0] == '-', s.drop_first())
    } else {
        signed_digits_value(false, s)
    }
}

/// A digit string has a nonnegative value.
proof fn lemma_digits_nonneg(s: Seq<char>)
    requires
        all_digits(s),
    ensures
        digits_val(s) >= 0,
    decreases s.len(),
{
    if s.len() > 0 {
        assert(all_digits(s.drop_last()));
        lemma_digits_nonneg(s.drop_last());
    }
}

/// Extending a digit string can only grow its value.
proof fn lemma_digits_prefix_mono(s: Seq<char>, n: int)
    requires
        all_digits(s),
        0 <= n <= s.len(),
    ensures
        digits_val(s.take(n)) <= digits_val(s),
    decreases s.len() - n,
{
    if n < s.len() {
        let t = s.take(n + 1);
        assert(all_digits(t));
        assert(t.drop_last() =~= s.take(n));
        lemma_digits_nonneg(s.take(n));
        assert(digits_val(t) == digits_val(s.take(n)) * 10 + digit_val(t.last()));
        assert(digits_val(s.take(n)) * 10 >= digits_val(s.take(n))) by (nonlinear_arith)
            requires
                digits_val(s.take(n)) >= 0,
        ;
        assert(digits_val(s.take(n)) <= digits_val(t));
        lemma_digits_prefix_mono(s, n + 1);
        assert(s.take(n + 1) == t);
    } else {
        assert(s.take(n) =~= s);
    }
}

/// The digit with value `d`.
fn digit_char_exec(d: u8) -> (c: char)
    requires
        d < 10,
    ensures
        c == digit_char(d as int),
        is_digit(c),
{
    let c = (d as u32 + '0' as u32) as u8 as char;
    c
}

/// Appends the decimal rendering of `n` to `out`.
pub(crate) fn push_dec_u64(n: u64, out: &mut Vec<char>)
    ensures
        final(out)@ == old(out)@ + dec_rep(n as int),
    decreases n,
{
    if n < 10 {
        let c = digit_char_exec(n as u8);
        out.push(c);
    } else {
        push_dec_u64(n / 10, out);
        let c = digit_char_exec((n % 10) as u8);
        out.push(c);
        assert(final(out)@ =~= old(out)@ + dec_rep(n as int));
    }
}

/// Appends the decimal rendering of the signed integer `n` to `out`.
pub(crate) fn push_dec_i64(n: i64, out: &mut Vec<char>)
    ensures
        final(out)@ == old(out)@ + int_rep(n as int),
{
    if n >= 0 {
        push_dec_u64(n as u64, out);
    } else {
        out.push('-');
        let mag: u64 = ((-(n as i128)) as u64);
        assert(mag as int == -(n as int));
        push_dec_u64(mag, out);
        assert(final(out)@ =~= old(out)@ + int_rep(n as int));
    }
}

fn is_digit_exec(c: char) -> (b: bool)
    ensures
        b == is_digit(c),
{
    '0' <= c && c <= '9'
}

/// Reads `v` as a 64-bit signed integer, accepting exactly the strings the
/// standard integer parser accepts: an optional sign, then one or more
/// decimal digits, with the value inside the 64-bit signed range.
pub fn parse_i64(v: &Vec<char>) -> (r: Option<i64>)
    ensures
        match r {
            Some(n) => i64_string_value(v@) == Some(n as int),
            None => i64_string_value(v@) is None,
        },
{
    let mut start: usize = 0;
    let mut neg = false;
    if v.len() > 0 && (v[0] == '+' || v[0] == '-') {
        neg = v[0] == '-';
        start = 1;
    }
    let ghost ds = v@.subrange(start as int, v@.len() as int);
    proof {
        if start == 0 {
            assert(ds =~= v@);
        } else {
            assert(ds =~= v@.drop_first());
        }
    }
    assert(i64_string_value(v@) == signed_digits_value(neg, ds));
    if start == v.len() {
        return None;
    }
    let mut mag: u64 = 0;
    let mut i: usize = start;
    while i < v.len()
        invariant
            start <= i <= v.len(),
            ds == v@.subrange(start as int, v@.len() as int),
            ds.len() > 0,
            i64_string_value(v@) == signed_digits_value(neg, ds),
            all_digits(ds.take(i - start)),
            mag as int == digits_val(ds.take(i - start)),
        decreases v.len() - i,
    {
        let c = v[i];
        if !is_digit_exec(c) {
            assert(!all_digits(ds)) by {
                assert(ds[i - start] == c);
                assert(!is_digit(ds[i - start]));
            }
            return None;
        }
        let d: u64 = (c as u32 - '0' as u32) as u64;
        assert(d as int == digit_val(c) && d < 10);
        if mag > (u64::MAX - d) / 10 {
            // The value read so far already exceeds the unsigned 64-bit
            // range, so the full digit string is out of the signed range.
            assert(mag * 10 + d > u64::MAX) by (nonlinear_arith)
                requires
                    mag > (u64::MAX - d) / 10,
                    d < 10,
            ;
            proof {
                let t = ds.take(i - start + 1);
                assert(t.drop_last() =~= ds.take(i - start));
                assert(t.last() == ds[i - start]);
                assert(digits_val(t) == mag * 10 + d);
                if all_digits(ds) {
                    lemma_digits_prefix_mono(ds, i - start + 1);
                    assert(digits_val(ds) > u64::MAX);
                }
            }
            return None;
        }
        assert(mag * 10 + d <= u64::MAX) by (nonlinear_arith)
            requires
                mag <= (u64::MAX - d) / 10,
                d < 10,
        ;
        let new_mag = mag * 10 + d;
        proof {
            let t = ds.take(i - start + 1);
            assert(t.drop_last() =~= ds.take(i - start));
            assert(t.last() == ds[i - start]);
            assert(all_digits(t));
            assert(digits_val(t) == new_mag as int);
        }
        mag = new_mag;
        i = i + 1;
    }
    assert(ds.take(i - start) =~= ds);
    assert(all_digits(ds) && ds.len() > 0);
    assert(mag as int == digits_val(ds));
    if neg {
        if mag <= 9223372036854775807u64 {
            let n = -(mag as i64);
            assert(signed_digits_value(neg, ds) == Some(n as int));
            Some(n)
        } else if mag == 9223372036854775808u64 {
            assert(signed_digits_value(neg, ds) == Some(i64::MIN as int));
            Some(i64::MIN)
        } else {
            assert(signed_digits_value(neg, ds) is None);
            None
        }
    } else {
        if mag <= 9223372036854775807u64 {
            let n = mag as i64;
            assert(signed_digits_value(neg, ds) == Some(n as int));
            Some(n)
        } else {
            assert(signed_digits_value(neg, ds) is None);
            None
        }
    }
}

} // verus!
