//! Low-level text helpers for the line format: whitespace trimming,
//! splitting at a separator character, and strict digit-string parsing.
use vstd::prelude::*;
use vstd::string::StrSliceExecFns;

verus! {

/// The whitespace characters that trimming removes: the ASCII forms that
/// occur around keys and values in this line-oriented format.
pub open spec fn is_space(c: char) -> bool {
    c == ' ' || c == '\t' || c == '\r' || c == '\n'
}

/// `s` with its leading whitespace removed.
pub open spec fn ltrim(s: Seq<char>) -> Seq<char>
    decreases s.len(),
{
    if s.len() > 0 && is_space(s[0]) {
        ltrim(s.drop_first())
    } else {
        s
    }
}

/// `s` with its trailing whitespace removed.
pub open spec fn rtrim(s: Seq<char>) -> Seq<char>
    decreases s.len(),
{
    if s.len() > 0 && is_space(s.last()) {
        rtrim(s.drop_last())
    } else {
        s
    }
}

/// `s` with whitespace removed from both ends.
#[verifier::opaque]
pub open spec fn trimmed(s: Seq<char>) -> Seq<char> {
    rtrim(ltrim(s))
}

fn is_space_char(c: char) -> (r: bool)
    ensures
        r == is_space(c),
{
    c == ' ' || c == '\t' || c == '\r' || c == '\n'
}

fn ltrim_str(s: &str) -> (r: &str)
    ensures
        r@ == ltrim(s@),
    decreases s@.len(),
{
    let n = s.unicode_len();
    if n > 0 && is_space_char(s.get_char(0)) {
        let rest = s.substring_char(1, n);
        proof {
            assert(rest@ =~= s@.drop_first());
        }
        ltrim_str(rest)
    } else {
        s
    }
}

fn rtrim_str(s: &str) -> (r: &str)
    ensures
        r@ == rtrim(s@),
    decreases s@.len(),
{
    let n = s.unicode_len();
    if n > 0 && is_space_char(s.get_char(n - 1)) {
        let rest = s.substring_char(0, n - 1);
        proof {
            assert(rest@ =~= s@.drop_last());
        }
        rtrim_str(rest)
    } else {
        s
    }
}

/// Removes leading and trailing whitespace.
pub fn trim_str(s: &str) -> (r: &str)
    ensures
        r@ == trimmed(s@),
{
    proof {
        reveal(trimmed);
    }
    rtrim_str(ltrim_str(s))
}

/// Splits `s` at the first occurrence of `c`: the part before it (which does
/// not contain `c`) and the part after it.
pub open spec fn split_first(s: Seq<char>, c: char) -> Option<(Seq<char>, Seq<char>)>
    decreases s.len(),
{
    if s.len() == 0 {
        None
    } else if s[0] == c {
        Some((Seq::empty(), s.drop_first()))
    } else {
        match split_first(s.drop_first(), c) {
            None => None,
            Some(p) => Some((seq![s[0]] + p.0, p.1)),
        }
    }
}

pub proof fn lemma_split_first_none(s: Seq<char>, c: char)
    requires
        forall|j: int| 0 <= j < s.len() ==> s[j] != c,
    ensures
        split_first(s, c) is None,
    decreases s.len(),
{
    if s.len() > 0 {
        lemma_split_first_none(s.drop_first(), c);
    }
}

pub proof fn lemma_split_first_at(s: Seq<char>, c: char, i: int)
    requires
        0 <= i < s.len(),
        s[i] == c,
        forall|j: int| 0 <= j < i ==> s[j] != c,
    ensures
        split_first(s, c) == Some((s.subrange(0, i), s.subrange(i + 1, s.len() as int))),
    decreases i,
{
    if i == 0 {
        assert(s.subrange(0, 0) =~= Seq::<char>::empty());
        assert(s.subrange(1, s.len() as int) =~= s.drop_first());
    } else {
        let t = s.drop_first();
        lemma_split_first_at(t, c, i - 1);
        assert(seq![s[0]] + t.subrange(0, i - 1) =~= s.subrange(0, i));
        assert(t.subrange(i, t.len() as int) =~= s.subrange(i + 1, s.len() as int));
    }
}

/// The pieces of a successful split reassemble into `s`; in particular the
/// remainder is shorter than `s`.
pub proof fn lemma_split_first_parts(s: Seq<char>, c: char)
    requires
        split_first(s, c) is Some,
    ensures
        ({
            let p = split_first(s, c)->Some_0;
            &&& s =~= p.0 + seq![c] + p.1
            &&& p.0.len() + 1 + p.1.len() == s.len()
            &&& forall|j: int| 0 <= j < p.0.len() ==> p.0[j] != c
        }),
    decreases s.len(),
{
    if s.len() > 0 && s[0] == c {
        let p = split_first(s, c)->Some_0;
        assert(p.0 == Seq::<char>::empty() && p.1 == s.drop_first());
        assert(s =~= p.0 + seq![c] + p.1);
    } else {
        lemma_split_first_parts(s.drop_first(), c);
        let q = split_first(s.drop_first(), c)->Some_0;
        let p = split_first(s, c)->Some_0;
        assert(p.0 == seq![s[0]] + q.0 && p.1 == q.1);
        assert(p.0 + seq![c] + p.1 =~= seq![s[0]] + (q.0 + seq![c] + q.1));
        assert(seq![s[0]] + s.drop_first() =~= s);
        assert(s =~= p.0 + seq![c] + p.1);
    }
}

fn find_first(s: &str, c: char) -> (r: Option<usize>)
    ensures
        match r {
            Some(i) => i < s@.len() && s@[i as int] == c && forall|j: int|
                0 <= j < i ==> s@[j] != c,
            None => forall|j: int| 0 <= j < s@.len() ==> s@[j] != c,
        },
{
    let n = s.unicode_len();
    let mut i: usize = 0;
    while i < n
        invariant
            n == s@.len(),
            i <= n,
            forall|j: int| 0 <= j < i ==> s@[j] != c,
        decreases n - i,
    {
        if s.get_char(i) == c {
            return Some(i);
        }
        i += 1;
    }
    None
}

/// Splits at the first occurrence of `c`, or reports that `s` has none.
pub fn split_once_at<'a>(s: &'a str, c: char) -> (r: Option<(&'a str, &'a str)>)
    ensures
        match r {
            Some(p) => split_first(s@, c) == Some((p.0@, p.1@)),
            None => split_first(s@, c) is None,
        },
{
    match find_first(s, c) {
        None => {
            proof {
                lemma_split_first_none(s@, c);
            }
            None
        },
        Some(i) => {
            let n = s.unicode_len();
            let before = s.substring_char(0, i);
            let after = s.substring_char(i + 1, n);
            proof {
                lemma_split_first_at(s@, c, i as int);
            }
            Some((before, after))
        },
    }
}

/// Whether every character of `s` is an ASCII decimal digit.
pub open spec fn is_digit(c: char) -> bool {
    48 <= c as int <= 57
}

pub open spec fn all_digits(s: Seq<char>) -> bool {
    forall|i: int| 0 <= i < s.len() ==> is_digit(#[trigger] s[i])
}

/// The numeric value of a digit character.
pub open spec fn digit_val(c: char) -> int {
    c as int - 48
}

/// The value of a digit string read in base ten.
pub open spec fn digits_val(s: Seq<char>) -> int
    decreases s.len(),
{
    if s.len() == 0 {
        0
    } else {
        digits_val(s.drop_last()) * 10 + digit_val(s.last())
    }
}

pub proof fn lemma_digits_val_nonneg(s: Seq<char>)
    requires
        all_digits(s),
    ensures
        digits_val(s) >= 0,
    decreases s.len(),
{
    if s.len() > 0 {
        lemma_digits_val_nonneg(s.drop_last());
    }
}

/// Reading more digits never makes the value smaller.
pub proof fn lemma_digits_val_prefix_le(s: Seq<char>, i: int)
    requires
        all_digits(s),
        0 <= i <= s.len(),
    ensures
        digits_val(s.subrange(0, i)) <= digits_val(s),
    decreases s.len() - i,
{
    if i < s.len() {
        let t = s.subrange(0, i + 1);
        assert(t.drop_last() =~= s.subrange(0, i));
        lemma_digits_val_nonneg(s.subrange(0, i));
        lemma_digits_val_prefix_le(s, i + 1);
    } else {
        assert(s.subrange(0, i) =~= s);
    }
}

/// Reads a non-empty string of decimal digits. Fails on any non-digit
/// character and on a value that does not fit in 64 bits.
pub fn parse_digits(s: &str) -> (r: Option<u64>)
    ensures
        match r {
            Some(v) => all_digits(s@) && s@.len() > 0 && digits_val(s@) == v,
            None => s@.len() == 0 || !all_digits(s@) || digits_val(s@) > u64::MAX,
        },
{
    let n = s.unicode_len();
    if n == 0 {
        return None;
    }
    let mut acc: u64 = 0;
    let mut i: usize = 0;
    while i < n
        invariant
            n == s@.len(),
            i <= n,
            all_digits(s@.subrange(0, i as int)),
            acc == digits_val(s@.subrange(0, i as int)),
        decreases n - i,
    {
        let c = s.get_char(i);
        let u = c as u32;
        if u < 48 || u > 57 {
            return None;
        }
        let d: u64 = (u - 48) as u64;
        proof {
            let t = s@.subrange(0, i + 1);
            assert(t.drop_last() =~= s@.subrange(0, i as int));
            assert(t.last() == s@[i as int]);
        }
        let hi = match acc.checked_mul(10) {
            Some(m) => m,
            None => {
                proof {
                    overflow_rest(s@, i as int);
                }
                return None;
            },
        };
        acc = match hi.checked_add(d) {
            Some(v) => v,
            None => {
                proof {
                    overflow_rest(s@, i as int);
                }
                return None;
            },
        };
        i += 1;
    }
    proof {
        assert(s@.subrange(0, n as int) =~= s@);
    }
    Some(acc)
}

/// If the value overflows already on a prefix, the whole string is either
/// not all digits or overflows too.
proof fn overflow_rest(s: Seq<char>, i: int)
    requires
        0 <= i < s.len(),
        all_digits(s.subrange(0, i)),
        is_digit(s[i]),
        digits_val(s.subrange(0, i)) * 10 + digit_val(s[i]) > u64::MAX,
    ensures
        !all_digits(s) || digits_val(s) > u64::MAX,
{
    if all_digits(s) {
        let t = s.subrange(0, i + 1);
        assert(t.drop_last() =~= s.subrange(0, i));
        assert(t.last() == s[i]);
        assert(all_digits(t)) by {
            assert(forall|j: int| 0 <= j < t.len() ==> t[j] == s[j]);
        }
        lemma_digits_val_prefix_le(s, i + 1);
    }
}

/// An unsigned decimal integer: an optional leading `+`, then one or more
/// digits, nothing else; the value must fit the width.
pub open spec fn parse_u64_spec(s: Seq<char>) -> Option<u64> {
    let t = if s.len() > 0 && s[0] == '+' {
        s.drop_first()
    } else {
        s
    };
    if t.len() > 0 && all_digits(t) && digits_val(t) <= u64::MAX {
        Some(digits_val(t) as u64)
    } else {
        None
    }
}

pub fn parse_u64(s: &str) -> (r: Option<u64>)
    ensures
        r == parse_u64_spec(s@),
{
    let n = s.unicode_len();
    let t: &str = if n > 0 && s.get_char(0) == '+' {
        let rest = s.substring_char(1, n);
        proof {
            assert(rest@ =~= s@.drop_first());
        }
        rest
    } else {
        s
    };
    parse_digits(t)
}

#[verifier::opaque]
pub open spec fn parse_u32_spec(s: Seq<char>) -> Option<u32> {
    match parse_u64_spec(s) {
        Some(v) => if v <= u32::MAX {
            Some(v as u32)
        } else {
            None
        },
        None => None,
    }
}

pub fn parse_u32(s: &str) -> (r: Option<u32>)
    ensures
        r == parse_u32_spec(s@),
{
    proof {
        reveal(parse_u32_spec);
    }
    match parse_u64(s) {
        Some(v) => if v <= u32::MAX as u64 {
            Some(v as u32)
        } else {
            None
        },
        None => None,
    }
}

#[verifier::opaque]
pub open spec fn parse_u8_spec(s: Seq<char>) -> Option<u8> {
    match parse_u64_spec(s) {
        Some(v) => if v <= u8::MAX {
            Some(v as u8)
        } else {
            None
        },
        None => None,
    }
}

pub fn parse_u8(s: &str) -> (r: Option<u8>)
    ensures
        r == parse_u8_spec(s@),
{
    proof {
        reveal(parse_u8_spec);
    }
    match parse_u64(s) {
        Some(v) => if v <= u8::MAX as u64 {
            Some(v as u8)
        } else {
            None
        },
        None => None,
    }
}

/// A signed decimal integer: an optional `+` or `-`, then one or more
/// digits; the value must fit in 32 bits.
#[verifier::opaque]
pub open spec fn parse_i32_spec(s: Seq<char>) -> Option<i32> {
    if s.len() > 0 && s[0] == '-' {
        let t = s.drop_first();
        if t.len() > 0 && all_digits(t) && digits_val(t) <= 0x8000_0000 {
            Some((0 - digits_val(t)) as i32)
        } else {
            None
        }
    } else {
        match parse_u64_spec(s) {
            Some(v) => if v <= i32::MAX as u64 {
                Some(v as i32)
            } else {
                None
            },
            None => None,
        }
    }
}

pub fn parse_i32(s: &str) -> (r: Option<i32>)
    ensures
        r == parse_i32_spec(s@),
{
    proof {
        reveal(parse_i32_spec);
    }
    let n = s.unicode_len();
    if n > 0 && s.get_char(0) == '-' {
        let t = s.substring_char(1, n);
        proof {
            assert(t@ =~= s@.drop_first());
        }
        match parse_digits(t) {
            Some(v) => {
                proof {
                    lemma_digits_val_nonneg(t@);
                }
                if v <= 0x8000_0000u64 {
                    Some((-(v as i64)) as i32)
                } else {
                    None
                }
            },
            None => None,
        }
    } else {
        match parse_u64(s) {
            Some(v) => if v <= i32::MAX as u64 {
                Some(v as i32)
            } else {
                None
            },
            None => None,
        }
    }
}

/// All the pieces of `s` between occurrences of `c`, in order. A string
/// without `c` is one piece; empty pieces between two adjacent occurrences
/// are kept.
pub open spec fn split_all(s: Seq<char>, c: char) -> Seq<Seq<char>>
    decreases s.len(),
    via split_all_decreases
{
    match split_first(s, c) {
        None => seq![s],
        Some(p) => seq![p.0] + split_all(p.1, c),
    }
}

#[via_fn]
proof fn split_all_decreases(s: Seq<char>, c: char) {
    if split_first(s, c) is Some {
        lemma_split_first_parts(s, c);
    }
}

/// Splits `s` into its pieces between occurrences of `c`.
pub fn split_all_str(s: &str, c: char) -> (r: Vec<String>)
    ensures
        r@.map_values(|t: String| t@) == split_all(s@, c),
    decreases s@.len(),
{
    match split_once_at(s, c) {
        None => {
            let mut v: Vec<String> = Vec::new();
            v.push(s.to_owned());
            proof {
                assert(v@.map_values(|t: String| t@) =~= seq![s@]);
            }
            v
        },
        Some((before, after)) => {
            proof {
                lemma_split_first_parts(s@, c);
            }
            let mut v = split_all_str(after, c);
            let ghost tail = v@.map_values(|t: String| t@);
            v.insert(0, before.to_owned());
            proof {
                assert(v@.map_values(|t: String| t@) =~= seq![before@] + tail);
            }
            v
        },
    }
}

/// A line with a trailing carriage return loses it.
pub open spec fn strip_cr(l: Seq<char>) -> Seq<char> {
    if l.len() > 0 && l.last() == '\r' {
        l.drop_last()
    } else {
        l
    }
}

/// The lines of a text: pieces between `\n` characters, each with a
/// trailing `\r` removed; a trailing line ending yields no final empty
/// line, and an empty text has no lines.
pub open spec fn split_lines(s: Seq<char>) -> Seq<Seq<char>>
    decreases s.len(),
    via split_lines_decreases
{
    if s.len() == 0 {
        Seq::empty()
    } else {
        match split_first(s, '\n') {
            None => seq![s],
            Some(p) => seq![strip_cr(p.0)] + split_lines(p.1),
        }
    }
}

#[via_fn]
proof fn split_lines_decreases(s: Seq<char>) {
    if s.len() > 0 && split_first(s, '\n') is Some {
        lemma_split_first_parts(s, '\n');
    }
}

fn strip_cr_str(l: &str) -> (r: &str)
    ensures
        r@ == strip_cr(l@),
{
    let n = l.unicode_len();
    if n > 0 && l.get_char(n - 1) == '\r' {
        let t = l.substring_char(0, n - 1);
        proof {
            assert(t@ =~= l@.drop_last());
        }
        t
    } else {
        l
    }
}

/// Splits a text into its lines.
pub fn split_lines_str(s: &str) -> (r: Vec<String>)
    ensures
        r@.map_values(|t: String| t@) == split_lines(s@),
    decreases s@.len(),
{
    let n = s.unicode_len();
    if n == 0 {
        let v: Vec<String> = Vec::new();
        proof {
            assert(v@.map_values(|t: String| t@) =~= Seq::<Seq<char>>::empty());
        }
        return v;
    }
    match split_once_at(s, '\n') {
        None => {
            let mut v: Vec<String> = Vec::new();
            v.push(s.to_owned());
            proof {
                assert(v@.map_values(|t: String| t@) =~= seq![s@]);
            }
            v
        },
        Some((before, after)) => {
            proof {
                lemma_split_first_parts(s@, '\n');
            }
            let line = strip_cr_str(before);
            let mut v = split_lines_str(after);
            let ghost tail = v@.map_values(|t: String| t@);
            v.insert(0, line.to_owned());
            proof {
                assert(v@.map_values(|t: String| t@) =~= seq![strip_cr(before@)] + tail);
            }
            v
        },
    }
}

/// Exact equality of two pieces of text.
pub fn str_eq(a: &str, b: &str) -> (r: bool)
    ensures
        r == (a@ == b@),
{
    let na = a.unicode_len();
    let nb = b.unicode_len();
    if na != nb {
        return false;
    }
    let mut i: usize = 0;
    while i < na
        invariant
            na == a@.len(),
            nb == b@.len(),
            na == nb,
            i <= na,
            forall|j: int| 0 <= j < i ==> a@[j] == b@[j],
        decreases na - i,
    {
        if a.get_char(i) != b.get_char(i) {
            return false;
        }
        i += 1;
    }
    proof {
        assert(a@ =~= b@);
    }
    true
}

} // verus!
