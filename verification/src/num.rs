//! Decimal integers: reading them the way `str::parse` does and writing
//! them the way `Display` does.
use vstd::prelude::*;
use crate::text::{push_char, to_chars};

verus! {

pub open spec fn is_digit(c: char) -> bool {
    '0' <= c && c <= '9'
}

pub open spec fn digit_val(c: char) -> int {
    (c as int) - 48
}

/// Value of a string of decimal digits (0 for the empty string).
pub open spec fn digits_value(ds: Seq<char>) -> int
    decreases ds.len(),
{
    if ds.len() == 0 {
        0
    } else {
        digits_value(ds.drop_last()) * 10 + digit_val(ds.last())
    }
}

pub open spec fn all_digits(ds: Seq<char>) -> bool {
    forall|i: int| 0 <= i < ds.len() ==> is_digit(#[trigger] ds[i])
}

/// What `str::parse` gives for an integer type whose values are `lo..=hi`:
/// an optional `+` (or `-` for a signed type) and at least one decimal
/// digit, nothing else, with a value in range.
pub open spec fn parsed_int(s: Seq<char>, signed: bool, lo: int, hi: int) -> Option<int> {
    let neg = signed && s.len() > 0 && s[0] == '-';
    let body = if s.len() > 0 && (s[0] == '+' || neg) {
        s.drop_first()
    } else {
        s
    };
    if body.len() == 0 || !all_digits(body) {
        None
    } else {
        let v = if neg {
            -digits_value(body)
        } else {
            digits_value(body)
        };
        if lo <= v && v <= hi {
            Some(v)
        } else {
            None
        }
    }
}

pub open spec fn parsed_i64(s: Seq<char>) -> Option<int> {
    parsed_int(s, true, i64::MIN as int, i64::MAX as int)
}

pub open spec fn parsed_i32(s: Seq<char>) -> Option<int> {
    parsed_int(s, true, i32::MIN as int, i32::MAX as int)
}

pub open spec fn parsed_u32(s: Seq<char>) -> Option<int> {
    parsed_int(s, false, 0, u32::MAX as int)
}

proof fn lemma_digits_nonneg(ds: Seq<char>)
    requires
        all_digits(ds),
    ensures
        digits_value(ds) >= 0,
    decreases ds.len(),
{
    if ds.len() > 0 {
        assert(is_digit(ds[ds.len() - 1]));
        lemma_digits_nonneg(ds.drop_last());
    }
}

proof fn lemma_digits_prefix_le(ds: Seq<char>, k: int)
    requires
        all_digits(ds),
        0 <= k <= ds.len(),
    ensures
        digits_value(ds.take(k)) <= digits_value(ds),
    decreases ds.len(),
{
    if k < ds.len() {
        let d = ds.drop_last();
        assert(is_digit(ds[ds.len() - 1]));
        assert(d.take(k) =~= ds.take(k));
        lemma_digits_prefix_le(d, k);
        lemma_digits_nonneg(d);
    } else {
        assert(ds.take(k) =~= ds);
    }
}

const MAGNITUDE_CAP: u128 = 0x1_0000_0000_0000_0000;

/// Reads an optionally signed decimal integer in `lo..=hi`.
fn parse_int(s: &str, signed: bool, lo: i128, hi: i128) -> (r: Option<i128>)
    requires
        -(MAGNITUDE_CAP as int) < lo <= 0 <= hi < MAGNITUDE_CAP,
    ensures
        r == (match parsed_int(s@, signed, lo as int, hi as int) {
            Some(v) => Some(v as i128),
            None => None::<i128>,
        }),
{
    let v = to_chars(s);
    let n = v.len();
    if n == 0 {
        return None;
    }
    let mut start: usize = 0;
    let mut neg = false;
    if v[0] == '+' {
        start = 1;
    } else if signed && v[0] == '-' {
        start = 1;
        neg = true;
    }
    let ghost body = if start == 1 { s@.drop_first() } else { s@ };
    proof {
        assert(body =~= v@.subrange(start as int, n as int));
    }
    if start == n {
        return None;
    }
    let mut acc: u128 = 0;
    let mut i: usize = start;
    while i < n
        invariant
            start <= i <= n,
            n == v.len(),
            v@ == s@,
            n > 0,
            -(MAGNITUDE_CAP as int) < lo <= 0 <= hi < MAGNITUDE_CAP,
            neg == (signed && s@[0] == '-'),
            body == (if s@[0] == '+' || neg { s@.drop_first() } else { s@ }),
            body == v@.subrange(start as int, n as int),
            all_digits(body.take(i - start)),
            acc as int == digits_value(body.take(i - start)),
            acc <= MAGNITUDE_CAP,
        decreases n - i,
    {
        let c = v[i];
        let ghost pre = body.take(i - start);
        let ghost post = body.take(i + 1 - start);
        proof {
            assert(post.drop_last() =~= pre);
            assert(post.last() == c);
        }
        if !('0' <= c && c <= '9') {
            proof {
                assert(body[i - start] == c);
            }
            return None;
        }
        let d = ((c as u32) - 48) as u128;
        acc = acc * 10 + d;
        proof {
            assert(all_digits(post)) by {
                assert forall|j: int| 0 <= j < post.len() implies is_digit(#[trigger] post[j]) by {
                    if j < pre.len() {
                        assert(post[j] == pre[j]);
                    }
                }
            }
        }
        if acc > MAGNITUDE_CAP {
            proof {
                if all_digits(body) {
                    lemma_digits_prefix_le(body, i + 1 - start);
                }
            }
            return None;
        }
        i = i + 1;
    }
    proof {
        assert(body.take(n - start) =~= body);
    }
    let val: i128 = if neg { -(acc as i128) } else { acc as i128 };
    if lo <= val && val <= hi {
        Some(val)
    } else {
        None
    }
}

/// `str::parse::<i64>`.
pub fn parse_i64(s: &str) -> (r: Option<i64>)
    ensures
        r == (match parsed_i64(s@) {
            Some(v) => Some(v as i64),
            None => None::<i64>,
        }),
{
    match parse_int(s, true, i64::MIN as i128, i64::MAX as i128) {
        Some(v) => Some(v as i64),
        None => None,
    }
}

/// `str::parse::<i32>`.
pub fn parse_i32(s: &str) -> (r: Option<i32>)
    ensures
        r == (match parsed_i32(s@) {
            Some(v) => Some(v as i32),
            None => None::<i32>,
        }),
{
    match parse_int(s, true, i32::MIN as i128, i32::MAX as i128) {
        Some(v) => Some(v as i32),
        None => None,
    }
}

/// `str::parse::<u32>`.
pub fn parse_u32(s: &str) -> (r: Option<u32>)
    ensures
        r == (match parsed_u32(s@) {
            Some(v) => Some(v as u32),
            None => None::<u32>,
        }),
{
    match parse_int(s, false, 0, u32::MAX as i128) {
        Some(v) => Some(v as u32),
        None => None,
    }
}

pub open spec fn digit_char(d: int) -> char {
    (d + 48) as char
}

/// The decimal digits of `n`, without leading zeros (`0` for zero).
pub open spec fn decimal(n: nat) -> Seq<char>
    decreases n,
{
    if n < 10 {
        seq![digit_char(n as int)]
    } else {
        decimal(n / 10).push(digit_char((n % 10) as int))
    }
}

/// How `Display` writes an integer.
pub open spec fn int_text(n: int) -> Seq<char> {
    if n < 0 {
        seq!['-'] + decimal((-n) as nat)
    } else {
        decimal(n as nat)
    }
}

fn push_decimal(out: &mut String, n: u64)
    ensures
        final(out)@ == old(out)@ + decimal(n as nat),
    decreases n,
{
    if n >= 10 {
        push_decimal(out, n / 10);
    }
    let d = (n % 10) as u8;
    let c = (48u8 + d) as char;
    assert(c == digit_char((n % 10) as int));
    push_char(out, c);
    assert(decimal(n as nat) == (if n < 10 {
        seq![digit_char(n as int)]
    } else {
        decimal((n / 10) as nat).push(digit_char((n % 10) as int))
    }));
    proof {
        if n < 10 {
            assert(n % 10 == n);
        }
    }
}

/// An integer written in decimal, with a leading `-` when negative.
pub fn fmt_i64(n: i64) -> (r: String)
    ensures
        r@ == int_text(n as int),
{
    let mut out = String::new();
    if n < 0 {
        push_char(&mut out, '-');
        let m: u64 = if n == i64::MIN { 9_223_372_036_854_775_808u64 } else { (-n) as u64 };
        push_decimal(&mut out, m);
    } else {
        push_decimal(&mut out, n as u64);
    }
    out
}

/// A count written in decimal.
pub fn fmt_usize(n: usize) -> (r: String)
    ensures
        r@ == decimal(n as nat),
{
    let mut out = String::new();
    push_decimal(&mut out, n as u64);
    out
}


proof fn lemma_decimal(n: nat)
    ensures
        decimal(n).len() > 0,
        all_digits(decimal(n)),
        digits_value(decimal(n)) == n,
    decreases n,
{
    if n < 10 {
        assert(digit_val(digit_char(n as int)) == n);
        assert(decimal(n).drop_last() =~= Seq::<char>::empty());
        assert(digits_value(decimal(n)) == digits_value(decimal(n).drop_last()) * 10 + digit_val(decimal(n).last()));
    } else {
        lemma_decimal(n / 10);
        let d = decimal(n);
        assert(d.drop_last() =~= decimal(n / 10));
        assert(digit_val(digit_char((n % 10) as int)) == n % 10);
        assert(d.last() == digit_char((n % 10) as int));
        assert((n / 10) * 10 + n % 10 == n) by (nonlinear_arith);
        assert(digits_value(d) == digits_value(d.drop_last()) * 10 + digit_val(d.last()));
        assert forall|i: int| 0 <= i < d.len() implies is_digit(#[trigger] d[i]) by {
            if i < d.len() - 1 {
                assert(d[i] == decimal(n / 10)[i]);
            }
        }
    }
}

/// Writing an integer in decimal and reading it back gives the integer.
pub proof fn lemma_int_text_parses(n: i64)
    ensures
        parsed_i64(int_text(n as int)) == Some(n as int),
{
    if n < 0 {
        lemma_decimal((-n) as nat);
        let t = int_text(n as int);
        assert(t.drop_first() =~= decimal((-n) as nat));
    } else {
        lemma_decimal(n as nat);
        let d = decimal(n as nat);
        assert(is_digit(d[0]));
    }
}

} // verus!
