//! Pure text formatting: decimal digits, thousands grouping, fixed-point
//! token amounts, and prefix truncation.  Amounts are kept in the smallest
//! indivisible unit (an integer) and only turned into fractional text here.

use vstd::prelude::*;
use vstd::string::*;
use vstd::utf8::is_ascii_chars;

verus! {

/// The decimal digit character for `d` (0 through 9).
pub open spec fn digit_char(d: int) -> char {
    if d == 0 {
        '0'
    } else if d == 1 {
        '1'
    } else if d == 2 {
        '2'
    } else if d == 3 {
        '3'
    } else if d == 4 {
        '4'
    } else if d == 5 {
        '5'
    } else if d == 6 {
        '6'
    } else if d == 7 {
        '7'
    } else if d == 8 {
        '8'
    } else {
        '9'
    }
}

/// The decimal digits of `n`, most significant first, with no leading
/// zeros (a single `0` for zero).
pub open spec fn dec_digits(n: nat) -> Seq<char>
    decreases n,
{
    if n < 10 {
        seq![digit_char(n as int)]
    } else {
        dec_digits(n / 10) + seq![digit_char((n % 10) as int)]
    }
}

/// The last `width` decimal digits of `n`, zero padded to `width` characters.
pub open spec fn padded_digits(n: nat, width: nat) -> Seq<char>
    decreases width,
{
    if width == 0 {
        Seq::<char>::empty()
    } else {
        padded_digits(n / 10, (width - 1) as nat) + seq![digit_char((n % 10) as int)]
    }
}

/// `digits` with a comma inserted before every complete group of three
/// characters, counted from the right.
pub open spec fn comma_grouped(digits: Seq<char>) -> Seq<char>
    decreases digits.len(),
{
    if digits.len() <= 3 {
        digits
    } else {
        comma_grouped(digits.take(digits.len() - 3)) + seq![','] + digits.skip(digits.len() - 3)
    }
}

/// The magnitude of `n` as a natural number.
pub open spec fn abs_nat(n: int) -> nat {
    if n >= 0 {
        n as nat
    } else {
        (-n) as nat
    }
}

/// A signed integer grouped in thousands: a leading `-` for negatives,
/// then the digits of the magnitude with commas every three digits.
pub open spec fn grouped_chars(n: int) -> Seq<char> {
    if n < 0 {
        seq!['-'] + comma_grouped(dec_digits(abs_nat(n)))
    } else {
        comma_grouped(dec_digits(abs_nat(n)))
    }
}

/// A token amount in smallest units (10^9 units per token), rendered as
/// whole tokens, a point, and exactly nine fractional digits.
pub open spec fn fixed9_chars(units: nat) -> Seq<char> {
    dec_digits(units / 1_000_000_000) + seq!['.'] + padded_digits(units % 1_000_000_000, 9)
}

/// The first `k` characters of `s` (all of `s` if shorter), then `...`.
pub open spec fn ellipsized(s: Seq<char>, k: int) -> Seq<char> {
    (if k < s.len() {
        s.take(k)
    } else {
        s
    }) + "..."@
}

/// Every decimal digit character is ASCII.
proof fn lemma_dec_digits_ascii(n: nat)
    ensures
        is_ascii_chars(dec_digits(n)),
    decreases n,
{
    if n >= 10 {
        lemma_dec_digits_ascii(n / 10);
    }
}

/// The one-character string for the decimal digit `d`.
fn digit_str(d: u64) -> (s: &'static str)
    requires
        d < 10,
    ensures
        s@ == seq![digit_char(d as int)],
        s@.len() == 1,
{
    proof {
        reveal_strlit("0");
        reveal_strlit("1");
        reveal_strlit("2");
        reveal_strlit("3");
        reveal_strlit("4");
        reveal_strlit("5");
        reveal_strlit("6");
        reveal_strlit("7");
        reveal_strlit("8");
        reveal_strlit("9");
    }
    let s: &'static str = if d == 0 {
        "0"
    } else if d == 1 {
        "1"
    } else if d == 2 {
        "2"
    } else if d == 3 {
        "3"
    } else if d == 4 {
        "4"
    } else if d == 5 {
        "5"
    } else if d == 6 {
        "6"
    } else if d == 7 {
        "7"
    } else if d == 8 {
        "8"
    } else {
        "9"
    };
    proof {
        assert(s@ =~= seq![digit_char(d as int)]);
    }
    s
}

/// The decimal text of `n`, without separators.
pub fn u64_digits(n: u64) -> (s: String)
    ensures
        s@ == dec_digits(n as nat),
    decreases n,
{
    if n < 10 {
        digit_str(n).to_owned()
    } else {
        let mut s = u64_digits(n / 10);
        s.append(digit_str(n % 10));
        s
    }
}

/// The last `width` decimal digits of `n`, zero padded.
pub fn zero_padded(n: u64, width: usize) -> (s: String)
    ensures
        s@ == padded_digits(n as nat, width as nat),
    decreases width,
{
    if width == 0 {
        String::new()
    } else {
        let mut s = zero_padded(n / 10, width - 1);
        s.append(digit_str(n % 10));
        s
    }
}

/// Insert a comma before every complete group of three characters,
/// counted from the right.
fn group_str(s: &str) -> (r: String)
    requires
        s.is_ascii(),
    ensures
        r@ == comma_grouped(s@),
    decreases s@.len(),
{
    let n = s.unicode_len();
    if n <= 3 {
        s.to_owned()
    } else {
        let head = s.substring_ascii(0, n - 3);
        let tail = s.substring_ascii(n - 3, n);
        let mut r = group_str(head);
        r.append(",");
        r.append(tail);
        proof {
            reveal_strlit(",");
            assert(head@ =~= s@.take(s@.len() - 3));
            assert(tail@ =~= s@.skip(s@.len() - 3));
            assert(r@ =~= comma_grouped(s@));
        }
        r
    }
}

/// The decimal text of `n` with thousands separators.
pub fn format_u64_grouped(n: u64) -> (r: String)
    ensures
        r@ == comma_grouped(dec_digits(n as nat)),
{
    let digits = u64_digits(n);
    proof {
        lemma_dec_digits_ascii(n as nat);
    }
    group_str(digits.as_str())
}

/// The decimal text of `n` with a sign and thousands separators:
/// `1234567` renders as `1,234,567` and `-42` as `-42`.
pub fn format_i64_grouped(n: i64) -> (r: String)
    ensures
        r@ == grouped_chars(n as int),
{
    if n >= 0 {
        format_u64_grouped(n as u64)
    } else {
        let wide: i128 = n as i128;
        let magnitude: u64 = (-wide) as u64;
        let mut r = "-".to_owned();
        r.append(format_u64_grouped(magnitude).as_str());
        proof {
            reveal_strlit("-");
            assert(r@ =~= grouped_chars(n as int));
        }
        r
    }
}

/// A token amount in smallest units as whole tokens with exactly nine
/// fractional digits: `1_500_000_000` units render as `1.500000000`.
pub fn format_fixed9(units: u64) -> (r: String)
    ensures
        r@ == fixed9_chars(units as nat),
{
    let whole: u64 = units / 1_000_000_000;
    let frac: u64 = units % 1_000_000_000;
    let mut r = u64_digits(whole);
    r.append(".");
    r.append(zero_padded(frac, 9).as_str());
    proof {
        reveal_strlit(".");
        assert(r@ =~= fixed9_chars(units as nat));
    }
    r
}

/// The first `k` characters of `s`, then an ellipsis.
pub fn prefix_ellipsis(s: &str, k: usize) -> (r: String)
    ensures
        r@ == ellipsized(s@, k as int),
{
    let n = s.unicode_len();
    let m = if k < n {
        k
    } else {
        n
    };
    let head = s.substring_char(0, m);
    let mut r = head.to_owned();
    r.append("...");
    proof {
        assert(r@ =~= ellipsized(s@, k as int));
    }
    r
}

} // verus!
