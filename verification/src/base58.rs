//! Base58 decoding (the Bitcoin alphabet), written against a direct
//! arithmetic specification: a string denotes a number in base 58, and the
//! decoded bytes are that number in big-endian form, preceded by one zero
//! byte for every leading `1` character.

use vstd::prelude::*;
use vstd::string::*;

verus! {

/// The value of `c` in the base58 alphabet
/// `123456789ABCDEFGHJKLMNPQRSTUVWXYZabcdefghijkmnopqrstuvwxyz`,
/// or -1 if `c` is not in the alphabet.
pub open spec fn b58_digit(c: char) -> int {
    match c {
        '1' => 0,
        '2' => 1,
        '3' => 2,
        '4' => 3,
        '5' => 4,
        '6' => 5,
        '7' => 6,
        '8' => 7,
        '9' => 8,
        'A' => 9,
        'B' => 10,
        'C' => 11,
        'D' => 12,
        'E' => 13,
        'F' => 14,
        'G' => 15,
        'H' => 16,
        'J' => 17,
        'K' => 18,
        'L' => 19,
        'M' => 20,
        'N' => 21,
        'P' => 22,
        'Q' => 23,
        'R' => 24,
        'S' => 25,
        'T' => 26,
        'U' => 27,
        'V' => 28,
        'W' => 29,
        'X' => 30,
        'Y' => 31,
        'Z' => 32,
        'a' => 33,
        'b' => 34,
        'c' => 35,
        'd' => 36,
        'e' => 37,
        'f' => 38,
        'g' => 39,
        'h' => 40,
        'i' => 41,
        'j' => 42,
        'k' => 43,
        'm' => 44,
        'n' => 45,
        'o' => 46,
        'p' => 47,
        'q' => 48,
        'r' => 49,
        's' => 50,
        't' => 51,
        'u' => 52,
        'v' => 53,
        'w' => 54,
        'x' => 55,
        'y' => 56,
        'z' => 57,
        _ => -1,
    }
}

/// Every character of `s` is a base58 digit.
pub open spec fn b58_valid(s: Seq<char>) -> bool {
    forall|j: int| 0 <= j < s.len() ==> b58_digit(#[trigger] s[j]) >= 0
}

/// The number that `s` denotes in base 58, most significant digit first.
pub open spec fn b58_num(s: Seq<char>) -> int
    decreases s.len(),
{
    if s.len() == 0 {
        0
    } else {
        b58_num(s.drop_last()) * 58 + b58_digit(s.last())
    }
}

/// How many `1` characters (digit value zero) `s` starts with.
pub open spec fn leading_ones(s: Seq<char>) -> int
    decreases s.len(),
{
    if s.len() == 0 || s[0] != '1' {
        0
    } else {
        1 + leading_ones(s.drop_first())
    }
}

/// The value of `b` read as a little-endian base-256 number.
pub open spec fn le_val(b: Seq<u8>) -> int
    decreases b.len(),
{
    if b.len() == 0 {
        0
    } else {
        b[0] + 256 * le_val(b.drop_first())
    }
}

/// A little-endian byte string with no redundant high zero bytes.
pub open spec fn le_canonical(b: Seq<u8>) -> bool {
    b.len() == 0 || b[b.len() - 1] != 0
}

pub open spec fn pow256(k: int) -> int
    decreases k,
{
    if k <= 0 {
        1
    } else {
        256 * pow256(k - 1)
    }
}

/// The shortest big-endian byte string for the non-negative number `n`
/// (empty for zero).
pub open spec fn be_bytes(n: int) -> Seq<u8>
    decreases n,
{
    if n <= 0 {
        Seq::<u8>::empty()
    } else {
        be_bytes(n / 256) + seq![(n % 256) as u8]
    }
}

/// What a valid base58 string decodes to: one zero byte per leading `1`,
/// then the denoted number in shortest big-endian form.
pub open spec fn b58_decoded(s: Seq<char>) -> Seq<u8> {
    Seq::new(leading_ones(s) as nat, |i: int| 0u8) + be_bytes(b58_num(s))
}

/// `b` reversed.
pub open spec fn rev_seq(b: Seq<u8>) -> Seq<u8> {
    Seq::new(b.len(), |i: int| b[b.len() - 1 - i])
}

proof fn lemma_le_val_nonneg(b: Seq<u8>)
    ensures
        le_val(b) >= 0,
    decreases b.len(),
{
    if b.len() > 0 {
        lemma_le_val_nonneg(b.drop_first());
    }
}

proof fn lemma_pow256_pos(k: int)
    ensures
        pow256(k) >= 1,
    decreases k,
{
    if k > 0 {
        lemma_pow256_pos(k - 1);
    }
}

/// Appending a byte adds its value at the next power of 256.
proof fn lemma_le_val_snoc(b: Seq<u8>, x: u8)
    ensures
        le_val(b.push(x)) == le_val(b) + x * pow256(b.len() as int),
    decreases b.len(),
{
    if b.len() == 0 {
        assert(b.push(x).drop_first() =~= Seq::<u8>::empty());
        assert(b.push(x)[0] == x);
        assert(le_val(b.push(x)) == x + 256 * le_val(b.push(x).drop_first()));
        assert(pow256(0) == 1);
        assert(x * 1 == x) by (nonlinear_arith);
    } else {
        assert(b.push(x).drop_first() =~= b.drop_first().push(x));
        lemma_le_val_snoc(b.drop_first(), x);
        assert(le_val(b.push(x)) == le_val(b) + x * pow256(b.len() as int)) by (nonlinear_arith)
            requires
                le_val(b.push(x)) == b[0] + 256 * le_val(b.drop_first().push(x)),
                le_val(b.drop_first().push(x)) == le_val(b.drop_first()) + x * pow256(
                    b.len() - 1,
                ),
                le_val(b) == b[0] + 256 * le_val(b.drop_first()),
                pow256(b.len() as int) == 256 * pow256(b.len() - 1),
        ;
    }
}

/// A canonical nonempty little-endian string denotes a positive number.
proof fn lemma_le_val_canonical_positive(b: Seq<u8>)
    requires
        le_canonical(b),
        b.len() > 0,
    ensures
        le_val(b) > 0,
{
    assert(b =~= b.drop_last().push(b.last()));
    lemma_le_val_snoc(b.drop_last(), b.last());
    lemma_le_val_nonneg(b.drop_last());
    lemma_pow256_pos(b.len() - 1);
    assert(b.last() * pow256(b.len() - 1) >= 1) by (nonlinear_arith)
        requires
            b.last() >= 1,
            pow256(b.len() - 1) >= 1,
    ;
}

/// Reversing a canonical little-endian string gives the shortest
/// big-endian form of its value.
proof fn lemma_rev_le_be(b: Seq<u8>)
    requires
        le_canonical(b),
    ensures
        rev_seq(b) == be_bytes(le_val(b)),
    decreases b.len(),
{
    if b.len() == 0 {
        assert(rev_seq(b) =~= be_bytes(0));
    } else {
        let head = b[0];
        let tail = b.drop_first();
        let v = le_val(b);
        lemma_le_val_nonneg(tail);
        assert(le_canonical(tail));
        lemma_rev_le_be(tail);
        assert(v % 256 == head && v / 256 == le_val(tail)) by (nonlinear_arith)
            requires
                v == head + 256 * le_val(tail),
                0 <= head < 256,
                le_val(tail) >= 0,
        ;
        lemma_le_val_canonical_positive(b);
        assert(be_bytes(v) == be_bytes(le_val(tail)) + seq![head]);
        assert(rev_seq(b) =~= rev_seq(tail) + seq![head]);
    }
}

/// Counting characters from the front agrees with `leading_ones`.
proof fn lemma_leading_ones(s: Seq<char>, k: int)
    requires
        0 <= k <= s.len(),
        forall|j: int| 0 <= j < k ==> s[j] == '1',
        k == s.len() || s[k] != '1',
    ensures
        leading_ones(s) == k,
    decreases s.len(),
{
    if k == 0 {
    } else {
        assert(s[0] == '1');
        lemma_leading_ones(s.drop_first(), k - 1);
    }
}

/// The digit value of `c`, if `c` is in the base58 alphabet.
fn b58_digit_of(c: char) -> (r: Option<u8>)
    ensures
        r == (if b58_digit(c) >= 0 {
            Some(b58_digit(c) as u8)
        } else {
            None::<u8>
        }),
        r is Some ==> r->0 < 58,
{
    match c {
        '1' => Some(0u8),
        '2' => Some(1u8),
        '3' => Some(2u8),
        '4' => Some(3u8),
        '5' => Some(4u8),
        '6' => Some(5u8),
        '7' => Some(6u8),
        '8' => Some(7u8),
        '9' => Some(8u8),
        'A' => Some(9u8),
        'B' => Some(10u8),
        'C' => Some(11u8),
        'D' => Some(12u8),
        'E' => Some(13u8),
        'F' => Some(14u8),
        'G' => Some(15u8),
        'H' => Some(16u8),
        'J' => Some(17u8),
        'K' => Some(18u8),
        'L' => Some(19u8),
        'M' => Some(20u8),
        'N' => Some(21u8),
        'P' => Some(22u8),
        'Q' => Some(23u8),
        'R' => Some(24u8),
        'S' => Some(25u8),
        'T' => Some(26u8),
        'U' => Some(27u8),
        'V' => Some(28u8),
        'W' => Some(29u8),
        'X' => Some(30u8),
        'Y' => Some(31u8),
        'Z' => Some(32u8),
        'a' => Some(33u8),
        'b' => Some(34u8),
        'c' => Some(35u8),
        'd' => Some(36u8),
        'e' => Some(37u8),
        'f' => Some(38u8),
        'g' => Some(39u8),
        'h' => Some(40u8),
        'i' => Some(41u8),
        'j' => Some(42u8),
        'k' => Some(43u8),
        'm' => Some(44u8),
        'n' => Some(45u8),
        'o' => Some(46u8),
        'p' => Some(47u8),
        'q' => Some(48u8),
        'r' => Some(49u8),
        's' => Some(50u8),
        't' => Some(51u8),
        'u' => Some(52u8),
        'v' => Some(53u8),
        'w' => Some(54u8),
        'x' => Some(55u8),
        'y' => Some(56u8),
        'z' => Some(57u8),
        _ => None,
    }
}

/// Multiply the little-endian number in `buf` by 58 and add `d`.
fn mul58_add(buf: &Vec<u8>, d: u8) -> (out: Vec<u8>)
    requires
        le_canonical(buf@),
        d < 58,
    ensures
        le_canonical(out@),
        le_val(out@) == 58 * le_val(buf@) + d,
{
    let ghost orig = buf@;
    let mut out: Vec<u8> = Vec::new();
    let mut carry: u64 = d as u64;
    let n = buf.len();
    let mut i: usize = 0;
    while i < n
        invariant
            i <= n,
            n == orig.len(),
            buf@ == orig,
            carry < 58,
            d < 58,
            out.len() == i,
            le_val(out@) + carry * pow256(i as int) == 58 * le_val(orig.take(i as int)) + d,
            (i > 0 && orig[i - 1] != 0) ==> (carry != 0 || out@[i - 1] != 0),
        decreases n - i,
    {
        let ghost prev_out = out@;
        let ghost c_in = carry as int;
        let t: u64 = buf[i] as u64 * 58 + carry;
        let lo: u8 = (t % 256) as u8;
        out.push(lo);
        carry = t / 256;
        proof {
            let gi = i as int;
            let b = orig[gi] as int;
            lemma_le_val_snoc(prev_out, lo);
            assert(orig.take(gi + 1) =~= orig.take(gi).push(orig[gi]));
            lemma_le_val_snoc(orig.take(gi), orig[gi]);
            assert(le_val(out@) + carry * pow256(gi + 1) == 58 * le_val(orig.take(gi + 1))
                + d) by (nonlinear_arith)
                requires
                    le_val(out@) == le_val(prev_out) + (t as int % 256) * pow256(gi),
                    le_val(prev_out) + c_in * pow256(gi) == 58 * le_val(orig.take(gi)) + d,
                    le_val(orig.take(gi + 1)) == le_val(orig.take(gi)) + b * pow256(gi),
                    t == 58 * b + c_in,
                    t == 256 * (t as int / 256) + t as int % 256,
                    carry == t as int / 256,
                    pow256(gi + 1) == 256 * pow256(gi),
            ;
            assert(carry < 58) by {
                assert(t < 58 * 256);
            }
        }
        i = i + 1;
    }
    proof {
        assert(orig.take(n as int) =~= orig);
    }
    if carry > 0 {
        let ghost prev_out = out@;
        let hi: u8 = carry as u8;
        out.push(hi);
        proof {
            lemma_le_val_snoc(prev_out, hi);
        }
    }
    out
}

/// Decode a base58 string.  Returns the decoded bytes exactly when every
/// character is in the alphabet.
pub fn b58_decode(s: &str) -> (r: Option<Vec<u8>>)
    ensures
        match r {
            Some(b) => b58_valid(s@) && b@ == b58_decoded(s@),
            None => !b58_valid(s@),
        },
{
    let n = s.unicode_len();
    let mut ones: usize = 0;
    loop
        invariant
            ones <= n,
            n == s@.len(),
            forall|j: int| 0 <= j < ones ==> s@[j] == '1',
        ensures
            ones <= n,
            n == s@.len(),
            forall|j: int| 0 <= j < ones ==> s@[j] == '1',
            ones == n || s@[ones as int] != '1',
        decreases n - ones,
    {
        if ones == n {
            break ;
        }
        let c = s.get_char(ones);
        if c != '1' {
            break ;
        }
        ones = ones + 1;
    }
    proof {
        lemma_leading_ones(s@, ones as int);
    }
    let mut buf: Vec<u8> = Vec::new();
    let mut i: usize = 0;
    while i < n
        invariant
            i <= n,
            n == s@.len(),
            b58_valid(s@.take(i as int)),
            le_canonical(buf@),
            le_val(buf@) == b58_num(s@.take(i as int)),
        decreases n - i,
    {
        let c = s.get_char(i);
        match b58_digit_of(c) {
            None => {
                proof {
                    assert(b58_digit(s@[i as int]) < 0);
                }
                return None;
            },
            Some(d) => {
                let gi = i;
                buf = mul58_add(&buf, d);
                proof {
                    let j = gi as int;
                    assert(s@.take(j + 1).drop_last() =~= s@.take(j));
                    assert(s@.take(j + 1).last() == s@[j]);
                    assert(b58_num(s@.take(j + 1)) == b58_num(s@.take(j)) * 58 + b58_digit(
                        s@[j],
                    ));
                    assert forall|k: int| 0 <= k < j + 1 implies b58_digit(
                        #[trigger] s@.take(j + 1)[k],
                    ) >= 0 by {
                        if k < j {
                            assert(b58_digit(s@.take(j)[k]) >= 0);
                        }
                    }
                }
            },
        }
        i = i + 1;
    }
    proof {
        assert(s@.take(n as int) =~= s@);
    }
    let mut out: Vec<u8> = Vec::new();
    let mut z: usize = 0;
    while z < ones
        invariant
            z <= ones,
            out.len() == z,
            forall|k: int| 0 <= k < z ==> out@[k] == 0,
        decreases ones - z,
    {
        out.push(0u8);
        z = z + 1;
    }
    let m = buf.len();
    let mut k: usize = 0;
    while k < m
        invariant
            k <= m,
            m == buf.len(),
            out.len() == ones + k,
            forall|t: int| 0 <= t < ones ==> out@[t] == 0,
            forall|t: int| 0 <= t < k ==> #[trigger] out@[ones + t] == buf@[m - 1 - t],
        decreases m - k,
    {
        out.push(buf[m - 1 - k]);
        k = k + 1;
    }
    proof {
        lemma_rev_le_be(buf@);
        let target = Seq::new(ones as nat, |i: int| 0u8) + rev_seq(buf@);
        assert forall|t: int| 0 <= t < out@.len() implies out@[t] == target[t] by {
            if t >= ones {
                assert(out@[ones + (t - ones)] == buf@[m - 1 - (t - ones)]);
            }
        }
        assert(out@ =~= target);
        assert(out@ =~= b58_decoded(s@));
    }
    Some(out)
}

} // verus!
