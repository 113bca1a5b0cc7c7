//! Fixed-width digit strings, the base layer of the persistent backend's
//! text encodings.
//!
//! The persistent backend stores every column as text, and every number as
//! a fixed count of digits, so fields sit at fixed positions and decoding
//! is positional. This module renders and reads such digit strings and
//! proves that the two are exact inverses.

use vstd::prelude::*;

verus! {

/// `base` raised to `k`.
pub open spec fn powb(base: nat, k: nat) -> nat
    decreases k,
{
    if k == 0 {
        1
    } else {
        base * powb(base, (k - 1) as nat)
    }
}

/// The character for one digit value, `0` through `f`.
pub open spec fn digit_char(d: u64) -> char {
    if d == 0 {
        '0'
    } else if d == 1 {
        '1'
    } else if d == 2 {
        '2'
    } else if d == 3 {
        '3'
    } else if d == 4 {
        '4'
    } else if d == 5 {
        '5'
    } else if d == 6 {
        '6'
    } else if d == 7 {
        '7'
    } else if d == 8 {
        '8'
    } else if d == 9 {
        '9'
    } else if d == 10 {
        'a'
    } else if d == 11 {
        'b'
    } else if d == 12 {
        'c'
    } else if d == 13 {
        'd'
    } else if d == 14 {
        'e'
    } else {
        'f'
    }
}

/// The digit value of a character, or `None` when it is no digit.
pub open spec fn digit_val(c: char) -> Option<u64> {
    if c == '0' {
        Some(0u64)
    } else if c == '1' {
        Some(1u64)
    } else if c == '2' {
        Some(2u64)
    } else if c == '3' {
        Some(3u64)
    } else if c == '4' {
        Some(4u64)
    } else if c == '5' {
        Some(5u64)
    } else if c == '6' {
        Some(6u64)
    } else if c == '7' {
        Some(7u64)
    } else if c == '8' {
        Some(8u64)
    } else if c == '9' {
        Some(9u64)
    } else if c == 'a' {
        Some(10u64)
    } else if c == 'b' {
        Some(11u64)
    } else if c == 'c' {
        Some(12u64)
    } else if c == 'd' {
        Some(13u64)
    } else if c == 'e' {
        Some(14u64)
    } else if c == 'f' {
        Some(15u64)
    } else {
        None
    }
}

/// The value `n` written in `base` with exactly `k` digits, most
/// significant first (leading zeros included; digits above the `k`-th are
/// dropped).
pub open spec fn digit_seq(base: u64, k: nat, n: u64) -> Seq<char>
    decreases k,
{
    if k == 0 || base < 2 {
        Seq::empty()
    } else {
        digit_seq(base, (k - 1) as nat, n / base).push(digit_char(n % base))
    }
}

/// The value of a digit string in `base`, or `None` when any character is
/// no digit of that base.
pub open spec fn digit_parse(base: u64, s: Seq<char>) -> Option<nat>
    decreases s.len(),
{
    if s.len() == 0 {
        Some(0nat)
    } else {
        match (digit_parse(base, s.drop_last()), digit_val(s.last())) {
            (Some(hi), Some(d)) => {
                if d < base {
                    Some((hi * base + d) as nat)
                } else {
                    None
                }
            },
            _ => None,
        }
    }
}

/// A digit string has as many characters as digits.
pub proof fn lemma_digit_seq_len(base: u64, k: nat, n: u64)
    requires
        base >= 2,
    ensures
        digit_seq(base, k, n).len() == k,
    decreases k,
{
    if k > 0 {
        lemma_digit_seq_len(base, (k - 1) as nat, n / base);
    }
}

/// Writing a value small enough for its digit count and reading it back
/// yields the value: the codec's round trip at the digit-string level.
pub proof fn lemma_digit_round_trip(base: u64, k: nat, n: u64)
    requires
        2 <= base <= 16,
        (n as nat) < powb(base as nat, k),
    ensures
        digit_parse(base, digit_seq(base, k, n)) == Some(n as nat),
    decreases k,
{
    if k == 0 {
        assert(n == 0);
    } else {
        let hi = n / base;
        let lo = n % base;
        assert((hi as nat) < powb(base as nat, (k - 1) as nat)) by (nonlinear_arith)
            requires
                2 <= base,
                (n as nat) < powb(base as nat, k),
                powb(base as nat, k) == (base as nat) * powb(base as nat, (k - 1) as nat),
                hi == n / base,
        {}
        lemma_digit_round_trip(base, (k - 1) as nat, hi);
        let s = digit_seq(base, k, n);
        assert(s.drop_last() =~= digit_seq(base, (k - 1) as nat, hi));
        assert(s.last() == digit_char(lo));
        assert(digit_val(digit_char(lo)) == Some(lo));
        assert((hi * base + lo) as nat == n as nat) by (nonlinear_arith)
            requires
                base >= 2,
                hi == n / base,
                lo == n % base,
        {}
    }
}

/// Returns the character for one digit value.
fn digit_char_of(d: u64) -> (c: char)
    requires
        d < 16,
    ensures
        c == digit_char(d),
{
    if d == 0 {
        '0'
    } else if d == 1 {
        '1'
    } else if d == 2 {
        '2'
    } else if d == 3 {
        '3'
    } else if d == 4 {
        '4'
    } else if d == 5 {
        '5'
    } else if d == 6 {
        '6'
    } else if d == 7 {
        '7'
    } else if d == 8 {
        '8'
    } else if d == 9 {
        '9'
    } else if d == 10 {
        'a'
    } else if d == 11 {
        'b'
    } else if d == 12 {
        'c'
    } else if d == 13 {
        'd'
    } else if d == 14 {
        'e'
    } else {
        'f'
    }
}

/// Returns the digit value of a character, or `None` when it is no digit.
fn digit_val_of(c: char) -> (r: Option<u64>)
    ensures
        r == digit_val(c),
{
    if c == '0' {
        Some(0u64)
    } else if c == '1' {
        Some(1u64)
    } else if c == '2' {
        Some(2u64)
    } else if c == '3' {
        Some(3u64)
    } else if c == '4' {
        Some(4u64)
    } else if c == '5' {
        Some(5u64)
    } else if c == '6' {
        Some(6u64)
    } else if c == '7' {
        Some(7u64)
    } else if c == '8' {
        Some(8u64)
    } else if c == '9' {
        Some(9u64)
    } else if c == 'a' {
        Some(10u64)
    } else if c == 'b' {
        Some(11u64)
    } else if c == 'c' {
        Some(12u64)
    } else if c == 'd' {
        Some(13u64)
    } else if c == 'e' {
        Some(14u64)
    } else if c == 'f' {
        Some(15u64)
    } else {
        None
    }
}

/// Appends the `k`-digit rendering of `n` in `base`.
pub fn push_digits(out: &mut Vec<char>, base: u64, k: usize, n: u64)
    requires
        2 <= base <= 16,
    ensures
        final(out)@ == old(out)@ + digit_seq(base, k as nat, n),
    decreases k,
{
    if k == 0 {
        proof {
            assert(old(out)@ + digit_seq(base, 0, n) =~= old(out)@);
        }
        return ;
    }
    push_digits(out, base, k - 1, n / base);
    out.push(digit_char_of(n % base));
    proof {
        assert(final(out)@ =~= old(out)@ + digit_seq(base, k as nat, n));
    }
}

/// Reads `k` digits of `base` starting at `start`, or `None` when a
/// character there is no digit of that base.
pub fn read_digits(s: &Vec<char>, start: usize, base: u64, k: usize) -> (r: Option<u64>)
    requires
        2 <= base <= 16,
        k <= 16,
        start + k <= s@.len(),
        powb(base as nat, k as nat) <= 0x10000000000000000,
    ensures
        r is Some <==> digit_parse(base, s@.subrange(start as int, start as int + k)) is Some,
        r matches Some(v) ==> digit_parse(base, s@.subrange(start as int, start as int + k))
            == Some(v as nat) && (v as nat) < powb(base as nat, k as nat),
    decreases k,
{
    let slen = s.len();
    if k == 0 {
        proof {
            assert(s@.subrange(start as int, start as int) =~= Seq::<char>::empty());
        }
        return Some(0);
    }
    let ghost whole = s@.subrange(start as int, start as int + k);
    proof {
        assert(whole.drop_last() =~= s@.subrange(start as int, start as int + (k - 1)));
        assert(whole.last() == s@[start as int + k - 1]);
        assert(powb(base as nat, (k - 1) as nat) <= powb(base as nat, k as nat) / (base as nat))
            by (nonlinear_arith)
            requires
                2 <= base,
                powb(base as nat, k as nat) == (base as nat) * powb(base as nat, (k - 1) as nat),
        {}
    }
    let hi = match read_digits(s, start, base, k - 1) {
        Some(v) => v,
        None => {
            return None;
        },
    };
    let d = match digit_val_of(s[start + (k - 1)]) {
        Some(v) => v,
        None => {
            return None;
        },
    };
    if d >= base {
        return None;
    }
    proof {
        assert((hi as nat) * (base as nat) + (d as nat) < powb(base as nat, k as nat))
            by (nonlinear_arith)
            requires
                2 <= base,
                d < base,
                (hi as nat) < powb(base as nat, (k - 1) as nat),
                powb(base as nat, k as nat) == (base as nat) * powb(base as nat, (k - 1) as nat),
        {}
        assert(digit_parse(base, whole.drop_last()) == Some(hi as nat));
        assert(digit_val(whole.last()) == Some(d));
        assert(digit_parse(base, whole) == Some(((hi as nat) * (base as nat) + d as nat) as nat));
    }
    Some(hi * base + d)
}


/// Code-point-lexicographic order on character sequences: at the first
/// differing position, `a`'s character has the smaller code. On the ASCII
/// digit strings this module produces it coincides with byte-wise text
/// comparison.
pub open spec fn lex_lt(a: Seq<char>, b: Seq<char>) -> bool
    decreases a.len(),
{
    if a.len() == 0 || b.len() == 0 {
        false
    } else if a.first() != b.first() {
        (a.first() as u32) < (b.first() as u32)
    } else {
        lex_lt(a.drop_first(), b.drop_first())
    }
}

/// Appending one character to each of two equal-length sequences compares
/// as the pair (sequence, appended character) does.
pub proof fn lemma_lex_push(a: Seq<char>, b: Seq<char>, x: char, y: char)
    requires
        a.len() == b.len(),
    ensures
        a == b ==> lex_lt(a.push(x), b.push(y)) == ((x as u32) < (y as u32)),
        lex_lt(a, b) ==> lex_lt(a.push(x), b.push(y)),
    decreases a.len(),
{
    if a.len() == 0 {
        reveal_with_fuel(lex_lt, 3);
        assert(a.push(x) =~= seq![x]);
        assert(b.push(y) =~= seq![y]);
        assert(seq![x].drop_first() =~= Seq::<char>::empty());
        assert(seq![y].drop_first() =~= Seq::<char>::empty());
    } else {
        assert(a.push(x).drop_first() =~= a.drop_first().push(x));
        assert(b.push(y).drop_first() =~= b.drop_first().push(y));
        assert(a.push(x).first() == a.first());
        assert(b.push(y).first() == b.first());
        lemma_lex_push(a.drop_first(), b.drop_first(), x, y);
        if a == b {
            assert(a.drop_first() =~= b.drop_first());
        }
    }
}

/// Concatenating onto two equal-length sequences compares as the pair
/// (sequence, remainder) does.
pub proof fn lemma_lex_concat(a: Seq<char>, b: Seq<char>, r1: Seq<char>, r2: Seq<char>)
    requires
        a.len() == b.len(),
    ensures
        a == b ==> lex_lt(a + r1, b + r2) == lex_lt(r1, r2),
        lex_lt(a, b) ==> lex_lt(a + r1, b + r2),
    decreases a.len(),
{
    if a.len() == 0 {
        assert(a + r1 =~= r1);
        assert(b + r2 =~= r2);
    } else {
        assert((a + r1).drop_first() =~= a.drop_first() + r1);
        assert((b + r2).drop_first() =~= b.drop_first() + r2);
        assert((a + r1).first() == a.first());
        assert((b + r2).first() == b.first());
        lemma_lex_concat(a.drop_first(), b.drop_first(), r1, r2);
        if a == b {
            assert(a.drop_first() =~= b.drop_first());
        }
    }
}

/// Digit characters are ordered as their digit values.
proof fn lemma_digit_char_mono(d1: u64, d2: u64)
    requires
        d1 < d2 < 16,
    ensures
        (digit_char(d1) as u32) < (digit_char(d2) as u32),
{
}

/// Equal-width digit strings are ordered as the values they render: the
/// fixed-width encodings' text order matches numeric order.
pub proof fn lemma_digit_seq_order(base: u64, k: nat, n: u64, m: u64)
    requires
        2 <= base <= 16,
        n < m,
        (m as nat) < powb(base as nat, k),
    ensures
        lex_lt(digit_seq(base, k, n), digit_seq(base, k, m)),
    decreases k,
{
    if k == 0 {
        assert(false);
    } else {
        let hn = n / base;
        let hm = m / base;
        assert((hm as nat) < powb(base as nat, (k - 1) as nat)) by (nonlinear_arith)
            requires
                2 <= base,
                (m as nat) < powb(base as nat, k),
                powb(base as nat, k) == (base as nat) * powb(base as nat, (k - 1) as nat),
                hm == m / base,
        {}
        assert(hn <= hm) by (nonlinear_arith)
            requires
                base >= 2,
                n < m,
                hn == n / base,
                hm == m / base,
        {}
        lemma_digit_seq_len(base, (k - 1) as nat, hn);
        lemma_digit_seq_len(base, (k - 1) as nat, hm);
        if hn == hm {
            assert(n % base < m % base) by (nonlinear_arith)
                requires
                    base >= 2,
                    n < m,
                    n / base == m / base,
            {}
            lemma_digit_char_mono(n % base, m % base);
            lemma_lex_push(
                digit_seq(base, (k - 1) as nat, hn),
                digit_seq(base, (k - 1) as nat, hm),
                digit_char(n % base),
                digit_char(m % base),
            );
        } else {
            lemma_digit_seq_order(base, (k - 1) as nat, hn, hm);
            lemma_lex_push(
                digit_seq(base, (k - 1) as nat, hn),
                digit_seq(base, (k - 1) as nat, hm),
                digit_char(n % base),
                digit_char(m % base),
            );
        }
    }
}

} // verus!
