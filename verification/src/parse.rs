//! Decimal parsing for pool-size values.
//!
//! A pool size set through the environment arrives as a string; it is
//! accepted exactly when it is a decimal numeral (optionally preceded
//! by `+`) whose value fits in `u32`.

use vstd::prelude::*;

verus! {

/// `c` is a decimal digit `'0'..='9'`.
pub open spec fn spec_is_digit(c: char) -> bool {
    48 <= c as int && c as int <= 57
}

/// The numeric value of the digit `c`.
pub open spec fn digit_val(c: char) -> nat {
    (c as int - 48) as nat
}

/// The value of `s` read as a big-endian decimal numeral.
pub open spec fn dec_val(s: Seq<char>) -> nat
    decreases s.len(),
{
    if s.len() == 0 {
        0
    } else {
        dec_val(s.drop_last()) * 10 + digit_val(s.last())
    }
}

/// Every character of `s` is a decimal digit.
pub open spec fn all_digits(s: Seq<char>) -> bool {
    forall|i: int| 0 <= i < s.len() ==> spec_is_digit(#[trigger] s[i])
}

/// `s` without an optional leading `+` sign.
pub open spec fn digit_part(s: Seq<char>) -> Seq<char> {
    if s.len() > 0 && s[0] == '+' {
        s.subrange(1, s.len() as int)
    } else {
        s
    }
}

/// `s` is a decimal numeral (an optional `+`, then one or more digits)
/// whose value fits in `u32`.
pub open spec fn is_u32_numeral(s: Seq<char>) -> bool {
    let d = digit_part(s);
    d.len() > 0 && all_digits(d) && dec_val(d) <= u32::MAX
}

/// The value of the numeral `s`.
pub open spec fn numeral_val(s: Seq<char>) -> nat {
    dec_val(digit_part(s))
}

/// Reading more digits never decreases the value of a numeral:
/// `dec_val` of a prefix is a lower bound for `dec_val` of the whole.
proof fn lemma_dec_val_prefix(s: Seq<char>, j: int)
    requires
        0 <= j <= s.len(),
    ensures
        dec_val(s.subrange(0, j)) <= dec_val(s),
    decreases s.len() - j,
{
    if j == s.len() {
        assert(s.subrange(0, j) =~= s);
    } else {
        let t = s.subrange(0, j + 1);
        assert(t.drop_last() =~= s.subrange(0, j));
        assert(dec_val(t) == dec_val(s.subrange(0, j)) * 10 + digit_val(s[j]));
        assert(dec_val(s.subrange(0, j)) * 10 >= dec_val(s.subrange(0, j))) by (nonlinear_arith);
        lemma_dec_val_prefix(s, j + 1);
    }
}

/// Parse `s` as a `u32`.
///
/// Returns `Some` exactly when `s` is a decimal numeral that fits in
/// `u32`, and then returns its value; returns `None` on an empty
/// string, a stray character, or a value above `u32::MAX`.
pub fn parse_u32(s: &str) -> (r: Option<u32>)
    ensures
        match r {
            Some(v) => is_u32_numeral(s@) && v as nat == numeral_val(s@),
            None => !is_u32_numeral(s@),
        },
{
    let n: usize = s.unicode_len();
    if n == 0 {
        return None;
    }
    let first: char = s.get_char(0);
    let start: usize = if first == '+' {
        1
    } else {
        0
    };
    proof {
        assert(digit_part(s@) =~= s@.subrange(start as int, n as int));
    }
    if start == n {
        // the string is just a sign, with no digits
        return None;
    }
    let ghost d = digit_part(s@);
    let mut acc: u32 = 0;
    let mut i: usize = start;
    while i < n
        invariant
            start <= i <= n,
            n == s@.len(),
            d == digit_part(s@),
            d =~= s@.subrange(start as int, n as int),
            start < n,
            forall|j: int| start <= j < i ==> spec_is_digit(#[trigger] s@[j]),
            acc as nat == dec_val(s@.subrange(start as int, i as int)),
        decreases n - i,
    {
        let c: char = s.get_char(i);
        let code: u32 = c as u32;
        if code < 48 || code > 57 {
            proof {
                assert(d[i - start] == s@[i as int]);
                assert(!all_digits(d));
            }
            return None;
        }
        let digit: u32 = code - 48;
        let ghost prefix = s@.subrange(start as int, i as int);
        let ghost prefix1 = s@.subrange(start as int, i + 1);
        proof {
            assert(prefix1.drop_last() =~= prefix);
            assert(dec_val(prefix1) == dec_val(prefix) * 10 + digit_val(s@[i as int]));
            assert(prefix1 =~= d.subrange(0, i + 1 - start));
        }
        let shifted: u32 = match acc.checked_mul(10) {
            Some(a) => a,
            None => {
                proof {
                    lemma_dec_val_prefix(d, i + 1 - start);
                }
                return None;
            },
        };
        let next: u32 = match shifted.checked_add(digit) {
            Some(a) => a,
            None => {
                proof {
                    lemma_dec_val_prefix(d, i + 1 - start);
                }
                return None;
            },
        };
        acc = next;
        i = i + 1;
    }
    proof {
        assert(s@.subrange(start as int, n as int) =~= d);
        assert(forall|j: int| 0 <= j < d.len() ==> spec_is_digit(#[trigger] d[j]));
    }
    Some(acc)
}

} // verus!
