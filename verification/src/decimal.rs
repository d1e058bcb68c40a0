//! Exact decimal numbers for the fractional fields of the format.
//!
//! A value is stored as a sign, an integer mantissa and a scale: the number
//! denoted is `mantissa / 10^scale`, negated when `negative` is set. Values
//! are kept normalized (no trailing zero in the fraction, no negative zero),
//! so structural equality coincides with numeric equality.
use vstd::prelude::*;
use vstd::string::StrSliceExecFns;
use vstd::string::StringExecFns;
use crate::text::{all_digits, digits_val, parse_digits, split_first, split_once_at};

verus! {

#[derive(Debug, Clone, Copy, PartialEq, Eq, Structural)]
pub struct Decimal {
    pub negative: bool,
    pub mantissa: u64,
    pub scale: u32,
}

/// A normalized decimal: the fraction has no trailing zero digit, and zero
/// is unique (not negative, scale zero).
pub open spec fn is_normal(d: Decimal) -> bool {
    &&& d.scale > 0 ==> d.mantissa % 10 != 0
    &&& d.mantissa == 0 ==> !d.negative && d.scale == 0
}

/// The normalized decimal with value `mantissa / 10^scale`, negated when
/// `neg` holds.
pub open spec fn norm_decimal(neg: bool, m: u64, sc: u32) -> Decimal
    decreases sc,
{
    if sc > 0 && m % 10 == 0 {
        norm_decimal(neg, m / 10, (sc - 1) as u32)
    } else {
        Decimal { negative: neg && m != 0, mantissa: m, scale: sc }
    }
}

pub proof fn lemma_norm_is_normal(neg: bool, m: u64, sc: u32)
    ensures
        is_normal(norm_decimal(neg, m, sc)),
    decreases sc,
{
    if sc > 0 && m % 10 == 0 {
        lemma_norm_is_normal(neg, m / 10, (sc - 1) as u32);
    }
}

/// A decimal literal: an optional sign, then digits with at most one point
/// and at least one digit in all; the digits must fit a 64-bit mantissa.
/// The result is normalized.
#[verifier::opaque]
pub open spec fn parse_decimal_spec(s: Seq<char>) -> Option<Decimal> {
    let neg = s.len() > 0 && s[0] == '-';
    let body = if s.len() > 0 && (s[0] == '-' || s[0] == '+') {
        s.drop_first()
    } else {
        s
    };
    let parts = match split_first(body, '.') {
        None => (body, Seq::<char>::empty()),
        Some(p) => p,
    };
    let digits = parts.0 + parts.1;
    if all_digits(parts.0) && all_digits(parts.1) && digits.len() > 0 && digits_val(digits)
        <= u64::MAX && parts.1.len() <= u32::MAX {
        Some(norm_decimal(neg, digits_val(digits) as u64, parts.1.len() as u32))
    } else {
        None
    }
}

impl Decimal {
    /// The normalized decimal with value `mantissa / 10^scale`, negated
    /// when `negative` holds.
    pub fn from_parts(negative: bool, mantissa: u64, scale: u32) -> (r: Decimal)
        ensures
            r == norm_decimal(negative, mantissa, scale),
            is_normal(r),
    {
        proof {
            lemma_norm_is_normal(negative, mantissa, scale);
        }
        let mut m = mantissa;
        let mut sc = scale;
        while sc > 0 && m % 10 == 0
            invariant
                norm_decimal(negative, m, sc) == norm_decimal(negative, mantissa, scale),
            decreases sc,
        {
            m = m / 10;
            sc = sc - 1;
        }
        Decimal { negative: negative && m != 0, mantissa: m, scale: sc }
    }

    /// The normalized decimal with the value of the whole number `n`.
    pub fn from_int(n: u64) -> (r: Decimal)
        ensures
            r == norm_decimal(false, n, 0),
    {
        Decimal::from_parts(false, n, 0)
    }
}

/// Reads a decimal literal, strictly: sign, digits, at most one point.
pub fn parse_decimal(s: &str) -> (r: Option<Decimal>)
    ensures
        r == parse_decimal_spec(s@),
        r matches Some(d) ==> is_normal(d),
{
    proof {
        reveal(parse_decimal_spec);
    }
    let n = s.unicode_len();
    let has_sign = n > 0 && (s.get_char(0) == '-' || s.get_char(0) == '+');
    let neg = n > 0 && s.get_char(0) == '-';
    let body: &str = if has_sign {
        let rest = s.substring_char(1, n);
        proof {
            assert(rest@ =~= s@.drop_first());
        }
        rest
    } else {
        s
    };
    let empty_str: &str = "";
    proof {
        reveal_strlit("");
        assert(empty_str@ =~= Seq::<char>::empty());
    }
    let (int_part, frac_part): (&str, &str) = match split_once_at(body, '.') {
        None => (body, empty_str),
        Some(p) => p,
    };
    let mut joined = String::new();
    joined.append(int_part);
    joined.append(frac_part);
    proof {
        assert(joined@ =~= int_part@ + frac_part@);
    }
    let frac_len = frac_part.unicode_len();
    if frac_len > u32::MAX as usize {
        proof {
            split_digits_concat(int_part@, frac_part@);
        }
        return None;
    }
    match parse_digits(joined.as_str()) {
        Some(v) => {
            proof {
                split_digits_concat(int_part@, frac_part@);
            }
            Some(Decimal::from_parts(neg, v, frac_len as u32))
        },
        None => {
            proof {
                split_digits_concat(int_part@, frac_part@);
            }
            None
        },
    }
}

/// Digit-hood of a concatenation is digit-hood of both parts.
proof fn split_digits_concat(a: Seq<char>, b: Seq<char>)
    ensures
        all_digits(a + b) <==> all_digits(a) && all_digits(b),
{
    let c = a + b;
    if all_digits(c) {
        assert forall|i: int| 0 <= i < a.len() implies crate::text::is_digit(#[trigger] a[i]) by {
            assert(a[i] == c[i]);
        }
        assert forall|i: int| 0 <= i < b.len() implies crate::text::is_digit(#[trigger] b[i]) by {
            assert(b[i] == c[a.len() + i]);
        }
    }
    if all_digits(a) && all_digits(b) {
        assert forall|i: int| 0 <= i < c.len() implies crate::text::is_digit(#[trigger] c[i]) by {
            if i < a.len() {
                assert(c[i] == a[i]);
            } else {
                assert(c[i] == b[i - a.len()]);
            }
        }
    }
}

} // verus!
