//! Record encodings for the persistent backend's text columns.
//!
//! Every piece has a fixed width, so whole records decode positionally:
//! a date is 24 hex digits (bias-shifted year, then month, then day, which
//! also makes the text sort in date order — [`lemma_date_text_order`]), an
//! optional 64-bit value is a presence flag plus 16 hex digits, and a
//! statement or metrics record is the concatenation of its pieces with the
//! symbol text as the remainder.

use vstd::prelude::*;

use crate::codec::{digit_parse, digit_seq, lemma_digit_round_trip, lemma_digit_seq_len,
    lemma_digit_seq_order, lemma_lex_concat, lex_lt, powb, push_digits, read_digits};
use crate::date::Date;
use crate::frequency::PeriodType;
use crate::metrics::{KeyMetrics, KeyMetricsView};
use crate::series::F64Bits;
use crate::statement::{FinancialStatement, FinancialStatementView};

verus! {

/// The year shifted so that the whole `i32` range becomes unsigned and
/// text order matches numeric order.
pub open spec fn biased_i32(x: i32) -> u64 {
    (x + 0x80000000) as u64
}

/// An `i32` as 8 hex digits of its bias-shifted value.
pub open spec fn i32_seq(x: i32) -> Seq<char> {
    digit_seq(16, 8, biased_i32(x))
}

/// Reads back an `i32` written by [`i32_seq`].
pub open spec fn i32_parse(s: Seq<char>) -> Option<i32> {
    match digit_parse(16, s) {
        Some(v) => {
            if v < 0x100000000 {
                Some((v - 0x80000000) as i32)
            } else {
                None
            }
        },
        None => None,
    }
}

/// A `u32` as 8 hex digits.
pub open spec fn u32_seq(x: u32) -> Seq<char> {
    digit_seq(16, 8, x as u64)
}

/// Reads back a `u32` written by [`u32_seq`].
pub open spec fn u32_parse(s: Seq<char>) -> Option<u32> {
    match digit_parse(16, s) {
        Some(v) => {
            if v < 0x100000000 {
                Some(v as u32)
            } else {
                None
            }
        },
        None => None,
    }
}

/// A date as 24 hex digits: bias-shifted year, month, day. Text order on
/// equal-length encodings matches the lexicographic date order.
pub open spec fn date_seq(d: Date) -> Seq<char> {
    i32_seq(d.year) + u32_seq(d.month) + u32_seq(d.day)
}

/// Reads back a date written by [`date_seq`].
pub open spec fn date_parse(s: Seq<char>) -> Option<Date> {
    if s.len() != 24 {
        None
    } else {
        match (i32_parse(s.subrange(0, 8)), u32_parse(s.subrange(8, 16)), u32_parse(
            s.subrange(16, 24),
        )) {
            (Some(y), Some(m), Some(d)) => Some(Date { year: y, month: m, day: d }),
            _ => None,
        }
    }
}

/// An optional opaque 64-bit value as a presence flag and 16 hex digits.
pub open spec fn opt_bits_seq(o: Option<F64Bits>) -> Seq<char> {
    match o {
        Some(b) => seq!['s'] + digit_seq(16, 16, b.0),
        None => seq!['n'] + digit_seq(16, 16, 0u64),
    }
}

/// Reads back an optional value written by [`opt_bits_seq`].
pub open spec fn opt_bits_parse(s: Seq<char>) -> Option<Option<F64Bits>> {
    if s.len() != 17 {
        None
    } else {
        match digit_parse(16, s.subrange(1, 17)) {
            Some(v) => {
                if s[0] == 's' {
                    Some(Some(F64Bits(v as u64)))
                } else if s[0] == 'n' && v == 0 {
                    Some(None)
                } else {
                    None
                }
            },
            None => None,
        }
    }
}

/// An optional `i32` as a presence flag and 8 hex digits.
pub open spec fn opt_i32_seq(o: Option<i32>) -> Seq<char> {
    match o {
        Some(x) => seq!['s'] + i32_seq(x),
        None => seq!['n'] + digit_seq(16, 8, 0u64),
    }
}

/// Reads back an optional `i32` written by [`opt_i32_seq`].
pub open spec fn opt_i32_parse(s: Seq<char>) -> Option<Option<i32>> {
    if s.len() != 9 {
        None
    } else if s[0] == 's' {
        match i32_parse(s.subrange(1, 9)) {
            Some(x) => Some(Some(x)),
            None => None,
        }
    } else if s[0] == 'n' {
        match digit_parse(16, s.subrange(1, 9)) {
            Some(v) => {
                if v == 0 {
                    Some(None)
                } else {
                    None
                }
            },
            None => None,
        }
    } else {
        None
    }
}

/// A period kind as one character.
pub open spec fn ptype_seq(p: PeriodType) -> Seq<char> {
    match p {
        PeriodType::Annual => seq!['A'],
        PeriodType::Quarterly => seq!['Q'],
    }
}

/// Reads back a period kind written by [`ptype_seq`].
pub open spec fn ptype_parse(s: Seq<char>) -> Option<PeriodType> {
    if s.len() != 1 {
        None
    } else if s[0] == 'A' {
        Some(PeriodType::Annual)
    } else if s[0] == 'Q' {
        Some(PeriodType::Quarterly)
    } else {
        None
    }
}

/// A list of optional values, each 17 characters.
pub open spec fn items_seq(items: Seq<Option<F64Bits>>) -> Seq<char>
    decreases items.len(),
{
    if items.len() == 0 {
        Seq::empty()
    } else {
        items_seq(items.drop_last()) + opt_bits_seq(items.last())
    }
}

/// Reads back exactly `n` optional values written by [`items_seq`].
pub open spec fn items_parse(s: Seq<char>, n: nat) -> Option<Seq<Option<F64Bits>>>
    decreases n,
{
    if n == 0 {
        if s.len() == 0 {
            Some(Seq::empty())
        } else {
            None
        }
    } else if s.len() < 17 {
        None
    } else {
        match (items_parse(s.subrange(0, s.len() - 17), (n - 1) as nat), opt_bits_parse(
            s.subrange(s.len() - 17, s.len() as int),
        )) {
            (Some(rest), Some(o)) => Some(rest.push(o)),
            _ => None,
        }
    }
}

/// Encoded pieces have their fixed lengths.
pub proof fn lemma_piece_lens(x: i32, u: u32, d: Date, o: Option<F64Bits>, oi: Option<i32>)
    ensures
        i32_seq(x).len() == 8,
        u32_seq(u).len() == 8,
        date_seq(d).len() == 24,
        opt_bits_seq(o).len() == 17,
        opt_i32_seq(oi).len() == 9,
{
    lemma_digit_seq_len(16, 8, biased_i32(x));
    lemma_digit_seq_len(16, 8, u as u64);
    lemma_digit_seq_len(16, 8, biased_i32(d.year));
    lemma_digit_seq_len(16, 8, d.month as u64);
    lemma_digit_seq_len(16, 8, d.day as u64);
    match o {
        Some(b) => lemma_digit_seq_len(16, 16, b.0),
        None => lemma_digit_seq_len(16, 16, 0u64),
    }
    match oi {
        Some(v) => lemma_digit_seq_len(16, 8, biased_i32(v)),
        None => lemma_digit_seq_len(16, 8, 0u64),
    }
}

/// An encoded item list is 17 characters per item.
pub proof fn lemma_items_seq_len(items: Seq<Option<F64Bits>>)
    ensures
        items_seq(items).len() == 17 * items.len(),
    decreases items.len(),
{
    if items.len() > 0 {
        lemma_items_seq_len(items.drop_last());
        lemma_piece_lens(0, 0, Date { year: 0, month: 0, day: 0 }, items.last(), None);
    }
}

/// powb(16, 8) and powb(16, 16) as numbers.
pub proof fn lemma_powb16_values()
    ensures
        powb(16, 8) == 0x100000000,
        powb(16, 16) == 0x10000000000000000,
{
    reveal_with_fuel(powb, 17);
}

/// Round trip for the `i32` piece.
pub proof fn lemma_i32_round_trip(x: i32)
    ensures
        i32_parse(i32_seq(x)) == Some(x),
{
    lemma_powb16_values();
    lemma_digit_round_trip(16, 8, biased_i32(x));
}

/// Round trip for the `u32` piece.
pub proof fn lemma_u32_round_trip(u: u32)
    ensures
        u32_parse(u32_seq(u)) == Some(u),
{
    lemma_powb16_values();
    lemma_digit_round_trip(16, 8, u as u64);
}

/// Round trip for the date piece.
pub proof fn lemma_date_round_trip(d: Date)
    ensures
        date_parse(date_seq(d)) == Some(d),
{
    lemma_piece_lens(d.year, d.month, d, None, None);
    let s = date_seq(d);
    assert(s.subrange(0, 8) =~= i32_seq(d.year));
    assert(s.subrange(8, 16) =~= u32_seq(d.month));
    assert(s.subrange(16, 24) =~= u32_seq(d.day));
    lemma_i32_round_trip(d.year);
    lemma_u32_round_trip(d.month);
    lemma_u32_round_trip(d.day);
}

/// Round trip for the optional-value piece.
pub proof fn lemma_opt_bits_round_trip(o: Option<F64Bits>)
    ensures
        opt_bits_parse(opt_bits_seq(o)) == Some(o),
{
    lemma_piece_lens(0, 0, Date { year: 0, month: 0, day: 0 }, o, None);
    lemma_powb16_values();
    let s = opt_bits_seq(o);
    match o {
        Some(b) => {
            assert(s.subrange(1, 17) =~= digit_seq(16, 16, b.0));
            lemma_digit_round_trip(16, 16, b.0);
        },
        None => {
            assert(s.subrange(1, 17) =~= digit_seq(16, 16, 0u64));
            lemma_digit_round_trip(16, 16, 0u64);
        },
    }
}

/// Round trip for the optional-`i32` piece.
pub proof fn lemma_opt_i32_round_trip(o: Option<i32>)
    ensures
        opt_i32_parse(opt_i32_seq(o)) == Some(o),
{
    lemma_piece_lens(0, 0, Date { year: 0, month: 0, day: 0 }, None, o);
    lemma_powb16_values();
    let s = opt_i32_seq(o);
    match o {
        Some(x) => {
            assert(s.subrange(1, 9) =~= i32_seq(x));
            lemma_i32_round_trip(x);
        },
        None => {
            assert(s.subrange(1, 9) =~= digit_seq(16, 8, 0u64));
            lemma_digit_round_trip(16, 8, 0u64);
        },
    }
}

/// Round trip for the item-list piece.
pub proof fn lemma_items_round_trip(items: Seq<Option<F64Bits>>)
    ensures
        items_parse(items_seq(items), items.len()) == Some(items),
    decreases items.len(),
{
    lemma_items_seq_len(items);
    if items.len() == 0 {
        assert(items_parse(items_seq(items), 0) == Some(Seq::<Option<F64Bits>>::empty()));
        assert(items =~= Seq::<Option<F64Bits>>::empty());
    } else {
        let s = items_seq(items);
        lemma_items_seq_len(items.drop_last());
        lemma_piece_lens(0, 0, Date { year: 0, month: 0, day: 0 }, items.last(), None);
        assert(s.subrange(0, s.len() - 17) =~= items_seq(items.drop_last()));
        assert(s.subrange(s.len() - 17, s.len() as int) =~= opt_bits_seq(items.last()));
        lemma_items_round_trip(items.drop_last());
        lemma_opt_bits_round_trip(items.last());
        assert(items.drop_last().push(items.last()) =~= items);
    }
}

/// Appends the 8-hex-digit rendering of a bias-shifted `i32`.
pub fn push_i32(out: &mut Vec<char>, x: i32)
    ensures
        final(out)@ == old(out)@ + i32_seq(x),
{
    let biased: u64 = (x as i64 + 0x80000000i64) as u64;
    proof {
        assert(biased == biased_i32(x));
    }
    push_digits(out, 16, 8, biased);
}

/// Appends the 8-hex-digit rendering of a `u32`.
pub fn push_u32(out: &mut Vec<char>, x: u32)
    ensures
        final(out)@ == old(out)@ + u32_seq(x),
{
    push_digits(out, 16, 8, x as u64);
}

/// Appends the 24-character rendering of a date.
pub fn push_date(out: &mut Vec<char>, d: Date)
    ensures
        final(out)@ == old(out)@ + date_seq(d),
{
    push_i32(out, d.year);
    push_u32(out, d.month);
    push_u32(out, d.day);
    proof {
        assert(final(out)@ =~= old(out)@ + date_seq(d));
    }
}

/// Appends the 17-character rendering of an optional value.
pub fn push_opt_bits(out: &mut Vec<char>, o: Option<F64Bits>)
    ensures
        final(out)@ == old(out)@ + opt_bits_seq(o),
{
    match o {
        Some(b) => {
            out.push('s');
            push_digits(out, 16, 16, b.0);
        },
        None => {
            out.push('n');
            push_digits(out, 16, 16, 0);
        },
    }
    proof {
        assert(final(out)@ =~= old(out)@ + opt_bits_seq(o));
    }
}

/// Appends the 9-character rendering of an optional `i32`.
pub fn push_opt_i32(out: &mut Vec<char>, o: Option<i32>)
    ensures
        final(out)@ == old(out)@ + opt_i32_seq(o),
{
    match o {
        Some(x) => {
            out.push('s');
            push_i32(out, x);
        },
        None => {
            out.push('n');
            push_digits(out, 16, 8, 0);
        },
    }
    proof {
        assert(final(out)@ =~= old(out)@ + opt_i32_seq(o));
    }
}

/// Reads an `i32` at `start`.
pub fn read_i32(s: &Vec<char>, start: usize) -> (r: Option<i32>)
    requires
        start + 8 <= s@.len(),
    ensures
        r == i32_parse(s@.subrange(start as int, start as int + 8)),
{
    proof {
        lemma_powb16_values();
    }
    match read_digits(s, start, 16, 8) {
        Some(v) => Some(((v as i64) - 0x80000000i64) as i32),
        None => None,
    }
}

/// Reads a `u32` at `start`.
pub fn read_u32(s: &Vec<char>, start: usize) -> (r: Option<u32>)
    requires
        start + 8 <= s@.len(),
    ensures
        r == u32_parse(s@.subrange(start as int, start as int + 8)),
{
    proof {
        lemma_powb16_values();
    }
    match read_digits(s, start, 16, 8) {
        Some(v) => Some(v as u32),
        None => None,
    }
}

/// Reads a date at `start`.
pub fn read_date(s: &Vec<char>, start: usize) -> (r: Option<Date>)
    requires
        start + 24 <= s@.len(),
    ensures
        r == date_parse(s@.subrange(start as int, start as int + 24)),
{
    let slen = s.len();
    let ghost whole = s@.subrange(start as int, start as int + 24);
    proof {
        assert(whole.subrange(0, 8) =~= s@.subrange(start as int, start as int + 8));
        assert(whole.subrange(8, 16) =~= s@.subrange(start as int + 8, start as int + 16));
        assert(whole.subrange(16, 24) =~= s@.subrange(start as int + 16, start as int + 24));
    }
    let y = match read_i32(s, start) {
        Some(v) => v,
        None => {
            return None;
        },
    };
    let m = match read_u32(s, start + 8) {
        Some(v) => v,
        None => {
            return None;
        },
    };
    let d = match read_u32(s, start + 16) {
        Some(v) => v,
        None => {
            return None;
        },
    };
    Some(Date { year: y, month: m, day: d })
}

/// Reads an optional value at `start`.
pub fn read_opt_bits(s: &Vec<char>, start: usize) -> (r: Option<Option<F64Bits>>)
    requires
        start + 17 <= s@.len(),
    ensures
        r == opt_bits_parse(s@.subrange(start as int, start as int + 17)),
{
    let slen = s.len();
    let ghost whole = s@.subrange(start as int, start as int + 17);
    proof {
        lemma_powb16_values();
        assert(whole.subrange(1, 17) =~= s@.subrange(start as int + 1, start as int + 17));
        assert(whole[0] == s@[start as int]);
    }
    let flag = s[start];
    let v = match read_digits(s, start + 1, 16, 16) {
        Some(v) => v,
        None => {
            return None;
        },
    };
    if flag == 's' {
        Some(Some(F64Bits(v)))
    } else if flag == 'n' && v == 0 {
        Some(None)
    } else {
        None
    }
}

/// Reads an optional `i32` at `start`.
pub fn read_opt_i32(s: &Vec<char>, start: usize) -> (r: Option<Option<i32>>)
    requires
        start + 9 <= s@.len(),
    ensures
        r == opt_i32_parse(s@.subrange(start as int, start as int + 9)),
{
    let slen = s.len();
    let ghost whole = s@.subrange(start as int, start as int + 9);
    proof {
        lemma_powb16_values();
        assert(whole.subrange(1, 9) =~= s@.subrange(start as int + 1, start as int + 9));
        assert(whole[0] == s@[start as int]);
    }
    let flag = s[start];
    if flag == 's' {
        match read_i32(s, start + 1) {
            Some(x) => Some(Some(x)),
            None => None,
        }
    } else if flag == 'n' {
        match read_digits(s, start + 1, 16, 8) {
            Some(v) => {
                if v == 0 {
                    Some(None)
                } else {
                    None
                }
            },
            None => None,
        }
    } else {
        None
    }
}


/// Converts a string slice to its character vector.
pub fn str_to_chars(s: &str) -> (r: Vec<char>)
    ensures
        r@ == s@,
{
    let n = s.unicode_len();
    let mut r: Vec<char> = Vec::new();
    let mut i: usize = 0;
    #[verifier::loop_isolation(false)]
    while i < n
        invariant
            n == s@.len(),
            0 <= i <= n,
            r@ =~= s@.take(i as int),
        decreases n - i,
    {
        r.push(s.get_char(i));
        proof {
            assert(r@ =~= s@.take(i + 1));
        }
        i += 1;
    }
    proof {
        assert(r@ =~= s@);
    }
    r
}

/// Relies on `String: FromIterator<char>`: collecting characters yields the
/// string of exactly those characters, in order.
#[verifier::external_body]
pub fn chars_to_string(v: &Vec<char>) -> (r: String)
    ensures
        r@ == v@,
{
    v.iter().collect()
}

/// Appends the renderings of a list of optional values.
pub fn push_items(out: &mut Vec<char>, items: &Vec<Option<F64Bits>>)
    ensures
        final(out)@ == old(out)@ + items_seq(items@),
{
    let n = items.len();
    let mut i: usize = 0;
    #[verifier::loop_isolation(false)]
    while i < n
        invariant
            n == items@.len(),
            0 <= i <= n,
            out@ =~= old(out)@ + items_seq(items@.take(i as int)),
        decreases n - i,
    {
        proof {
            assert(items@.take(i + 1).drop_last() =~= items@.take(i as int));
            assert(items@.take(i + 1).last() == items@[i as int]);
        }
        push_opt_bits(out, items[i]);
        proof {
            assert(out@ =~= old(out)@ + items_seq(items@.take(i + 1)));
        }
        i += 1;
    }
    proof {
        assert(items@.take(n as int) =~= items@);
    }
}

/// When an item region parses, every 17-character chunk of it parses to the
/// corresponding item.
proof fn lemma_items_parse_chunks(s: Seq<char>, n: nat)
    requires
        s.len() == 17 * n,
    ensures
        items_parse(s, n) matches Some(items) ==> items.len() == n && forall|i: int|
            0 <= i < n ==> opt_bits_parse(s.subrange(17 * i, 17 * i + 17)) == Some(items[i]),
    decreases n,
{
    if n > 0 {
        let pre = s.subrange(0, s.len() - 17);
        lemma_items_parse_chunks(pre, (n - 1) as nat);
        if items_parse(s, n) is Some {
            assert forall|i: int|
                0 <= i < n implies opt_bits_parse(
                #[trigger] s.subrange(17 * i, 17 * i + 17),
            ) == Some(items_parse(s, n)->Some_0[i]) by {
                if i < n - 1 {
                    assert(pre.subrange(17 * i, 17 * i + 17) =~= s.subrange(
                        17 * i,
                        17 * i + 17,
                    ));
                } else {
                    assert(s.subrange(17 * i, 17 * i + 17) =~= s.subrange(
                        s.len() - 17,
                        s.len() as int,
                    ));
                }
            }
        }
    }
}

/// Reads `n` optional values at `start`.
pub fn read_items(s: &Vec<char>, start: usize, n: usize) -> (r: Option<Vec<Option<F64Bits>>>)
    requires
        start + 17 * n <= s@.len(),
    ensures
        r is Some <==> items_parse(
            s@.subrange(start as int, start as int + 17 * n),
            n as nat,
        ) is Some,
        r matches Some(v) ==> items_parse(s@.subrange(start as int, start as int + 17 * n), n as nat)
            == Some(v@) && v@.len() == n,
    decreases n,
{
    let slen = s.len();
    let ghost whole = s@.subrange(start as int, start as int + 17 * n);
    let mut acc: Vec<Option<F64Bits>> = Vec::new();
    let mut i: usize = 0;
    #[verifier::loop_isolation(false)]
    while i < n
        invariant
            0 <= i <= n,
            acc@.len() == i,
            items_parse(s@.subrange(start as int, start as int + 17 * i), i as nat) == Some(acc@),
        decreases n - i,
    {
        let ghost region = s@.subrange(start as int, start as int + 17 * (i + 1));
        proof {
            assert(region.len() == 17 * (i + 1));
            assert(region.subrange(0, region.len() - 17) =~= s@.subrange(
                start as int,
                start as int + 17 * i,
            ));
            assert(region.subrange(region.len() - 17, region.len() as int) =~= s@.subrange(
                start as int + 17 * i,
                start as int + 17 * i + 17,
            ));
        }
        match read_opt_bits(s, start + 17 * i) {
            Some(o) => {
                acc.push(o);
            },
            None => {
                proof {
                    lemma_items_parse_chunks(whole, n as nat);
                    if items_parse(whole, n as nat) is Some {
                        let j = i as int;
                        assert(opt_bits_parse(whole.subrange(17 * j, 17 * j + 17))
                            == Some(items_parse(whole, n as nat)->Some_0[j]));
                        assert(whole.subrange(17 * j, 17 * j + 17) =~= s@.subrange(
                            start as int + 17 * j,
                            start as int + 17 * j + 17,
                        ));
                        assert(false);
                    }
                }
                return None;
            },
        }
        i += 1;
    }
    proof {
        assert(s@.subrange(start as int, start as int + 17 * n) =~= whole);
    }
    Some(acc)
}


/// The blob a financial statement is stored as: date, period kind, fiscal
/// year, fiscal quarter, the thirty numeric items, then the symbol text as
/// the remainder.
pub open spec fn stmt_blob(v: FinancialStatementView) -> Seq<char> {
    date_seq(v.period_end) + ptype_seq(v.period_type) + opt_i32_seq(v.fiscal_year) + opt_i32_seq(
        v.fiscal_quarter,
    ) + items_seq(v.items) + v.symbol
}

/// Reads back a statement written by [`stmt_blob`].
pub open spec fn stmt_parse(s: Seq<char>) -> Option<FinancialStatementView> {
    if s.len() < 553 {
        None
    } else {
        match (date_parse(s.subrange(0, 24)), ptype_parse(s.subrange(24, 25)), opt_i32_parse(
            s.subrange(25, 34),
        ), opt_i32_parse(s.subrange(34, 43)), items_parse(s.subrange(43, 553), 30)) {
            (Some(pe), Some(pt), Some(fy), Some(fq), Some(items)) => Some(
                FinancialStatementView {
                    symbol: s.skip(553),
                    period_end: pe,
                    period_type: pt,
                    fiscal_year: fy,
                    fiscal_quarter: fq,
                    items,
                },
            ),
            _ => None,
        }
    }
}

/// Encoding a statement and reading it back yields the statement.
pub proof fn lemma_stmt_round_trip(v: FinancialStatementView)
    requires
        v.items.len() == 30,
    ensures
        stmt_parse(stmt_blob(v)) == Some(v),
{
    let s = stmt_blob(v);
    lemma_piece_lens(0, 0, v.period_end, None, v.fiscal_year);
    lemma_piece_lens(0, 0, v.period_end, None, v.fiscal_quarter);
    lemma_items_seq_len(v.items);
    assert(s.subrange(0, 24) =~= date_seq(v.period_end));
    assert(s.subrange(24, 25) =~= ptype_seq(v.period_type));
    assert(s.subrange(25, 34) =~= opt_i32_seq(v.fiscal_year));
    assert(s.subrange(34, 43) =~= opt_i32_seq(v.fiscal_quarter));
    assert(s.subrange(43, 553) =~= items_seq(v.items));
    assert(s.skip(553) =~= v.symbol);
    lemma_date_round_trip(v.period_end);
    lemma_opt_i32_round_trip(v.fiscal_year);
    lemma_opt_i32_round_trip(v.fiscal_quarter);
    lemma_items_round_trip(v.items);
}

/// Encodes a financial statement as its storage blob.
pub fn encode_statement(stmt: &FinancialStatement) -> (r: String)
    ensures
        r@ == stmt_blob(stmt@),
{
    let mut out: Vec<char> = Vec::new();
    push_date(&mut out, stmt.period_end);
    match stmt.period_type {
        PeriodType::Annual => out.push('A'),
        PeriodType::Quarterly => out.push('Q'),
    }
    push_opt_i32(&mut out, stmt.fiscal_year);
    push_opt_i32(&mut out, stmt.fiscal_quarter);
    let items = stmt.items_vec();
    push_items(&mut out, &items);
    let mut sym = str_to_chars(stmt.symbol.as_str());
    out.append(&mut sym);
    proof {
        assert(out@ =~= stmt_blob(stmt@));
    }
    chars_to_string(&out)
}

/// Decodes a financial statement from its storage blob.
pub fn decode_statement(s: &str) -> (r: Option<FinancialStatement>)
    ensures
        r is Some <==> stmt_parse(s@) is Some,
        r matches Some(st) ==> stmt_parse(s@) == Some(st@),
{
    let chars = str_to_chars(s);
    let n = chars.len();
    if n < 553 {
        return None;
    }
    let pe = match read_date(&chars, 0) {
        Some(v) => v,
        None => {
            return None;
        },
    };
    let ptc = chars[24];
    proof {
        assert(s@.subrange(24, 25) =~= seq![s@[24]]);
    }
    let pt = if ptc == 'A' {
        PeriodType::Annual
    } else if ptc == 'Q' {
        PeriodType::Quarterly
    } else {
        return None;
    };
    let fy = match read_opt_i32(&chars, 25) {
        Some(v) => v,
        None => {
            return None;
        },
    };
    let fq = match read_opt_i32(&chars, 34) {
        Some(v) => v,
        None => {
            return None;
        },
    };
    let items = match read_items(&chars, 43, 30) {
        Some(v) => v,
        None => {
            return None;
        },
    };
    let mut symchars: Vec<char> = Vec::new();
    let mut i: usize = 553;
    #[verifier::loop_isolation(false)]
    while i < n
        invariant
            553 <= i <= n,
            n == s@.len(),
            symchars@ =~= s@.subrange(553, i as int),
        decreases n - i,
    {
        symchars.push(chars[i]);
        proof {
            assert(symchars@ =~= s@.subrange(553, i + 1));
        }
        i += 1;
    }
    proof {
        assert(symchars@ =~= s@.skip(553));
    }
    let symbol = crate::symbol::Symbol::from_canonical(chars_to_string(&symchars));
    let st = FinancialStatement::from_parts(symbol, pe, pt, fy, fq, &items);
    proof {
        assert(stmt_parse(s@) == Some(st@));
    }
    Some(st)
}

/// The blob a metrics record is stored as: date, the numeric items, then
/// the symbol text as the remainder.
pub open spec fn metrics_blob(v: KeyMetricsView) -> Seq<char> {
    date_seq(v.date) + items_seq(v.items) + v.symbol
}

/// Reads back a metrics record written by [`metrics_blob`].
pub open spec fn metrics_parse(s: Seq<char>) -> Option<KeyMetricsView> {
    if s.len() < 398 {
        None
    } else {
        match (date_parse(s.subrange(0, 24)), items_parse(s.subrange(24, 398), 22)) {
            (Some(d), Some(items)) => Some(
                KeyMetricsView { symbol: s.skip(398), date: d, items },
            ),
            _ => None,
        }
    }
}

/// Encoding a metrics record and reading it back yields the record.
pub proof fn lemma_metrics_round_trip(v: KeyMetricsView)
    requires
        v.items.len() == 22,
    ensures
        metrics_parse(metrics_blob(v)) == Some(v),
{
    let s = metrics_blob(v);
    lemma_piece_lens(0, 0, v.date, None, None);
    lemma_items_seq_len(v.items);
    assert(s.subrange(0, 24) =~= date_seq(v.date));
    assert(s.subrange(24, 398) =~= items_seq(v.items));
    assert(s.skip(398) =~= v.symbol);
    lemma_date_round_trip(v.date);
    lemma_items_round_trip(v.items);
}

/// Encodes a metrics record as its storage blob.
pub fn encode_metrics(metrics: &KeyMetrics) -> (r: String)
    ensures
        r@ == metrics_blob(metrics@),
{
    let mut out: Vec<char> = Vec::new();
    push_date(&mut out, metrics.date);
    let items = metrics.items_vec();
    push_items(&mut out, &items);
    let mut sym = str_to_chars(metrics.symbol.as_str());
    out.append(&mut sym);
    proof {
        assert(out@ =~= metrics_blob(metrics@));
    }
    chars_to_string(&out)
}

/// Decodes a metrics record from its storage blob.
pub fn decode_metrics(s: &str) -> (r: Option<KeyMetrics>)
    ensures
        r is Some <==> metrics_parse(s@) is Some,
        r matches Some(m) ==> metrics_parse(s@) == Some(m@),
{
    let chars = str_to_chars(s);
    let n = chars.len();
    if n < 398 {
        return None;
    }
    let d = match read_date(&chars, 0) {
        Some(v) => v,
        None => {
            return None;
        },
    };
    let items = match read_items(&chars, 24, 22) {
        Some(v) => v,
        None => {
            return None;
        },
    };
    let mut symchars: Vec<char> = Vec::new();
    let mut i: usize = 398;
    #[verifier::loop_isolation(false)]
    while i < n
        invariant
            398 <= i <= n,
            n == s@.len(),
            symchars@ =~= s@.subrange(398, i as int),
        decreases n - i,
    {
        symchars.push(chars[i]);
        proof {
            assert(symchars@ =~= s@.subrange(398, i + 1));
        }
        i += 1;
    }
    proof {
        assert(symchars@ =~= s@.skip(398));
    }
    let symbol = crate::symbol::Symbol::from_canonical(chars_to_string(&symchars));
    let m = KeyMetrics::from_parts(symbol, d, &items);
    proof {
        assert(metrics_parse(s@) == Some(m@));
    }
    Some(m)
}


/// A bare 64-bit value as 16 hex digits.
pub open spec fn bits_parse(s: Seq<char>) -> Option<u64> {
    if s.len() != 16 {
        None
    } else {
        match digit_parse(16, s) {
            Some(v) => Some(v as u64),
            None => None,
        }
    }
}

/// Renders a date as its 24-character column text.
pub fn date_field(d: Date) -> (r: String)
    ensures
        r@ == date_seq(d),
{
    let mut out: Vec<char> = Vec::new();
    push_date(&mut out, d);
    proof {
        assert(out@ =~= date_seq(d));
    }
    chars_to_string(&out)
}

/// Reads a date back from its column text.
pub fn parse_date_field(s: &str) -> (r: Option<Date>)
    ensures
        r == date_parse(s@),
{
    let chars = str_to_chars(s);
    if chars.len() != 24 {
        return None;
    }
    proof {
        assert(chars@.subrange(0, 24) =~= s@);
    }
    read_date(&chars, 0)
}

/// Renders a bare 64-bit value as its 16-character column text.
pub fn bits_field(b: u64) -> (r: String)
    ensures
        r@ == digit_seq(16, 16, b),
{
    let mut out: Vec<char> = Vec::new();
    push_digits(&mut out, 16, 16, b);
    proof {
        assert(out@ =~= digit_seq(16, 16, b));
    }
    chars_to_string(&out)
}

/// Reads a bare 64-bit value back from its column text.
pub fn parse_bits_field(s: &str) -> (r: Option<u64>)
    ensures
        r == bits_parse(s@),
{
    let chars = str_to_chars(s);
    if chars.len() != 16 {
        return None;
    }
    proof {
        lemma_powb16_values();
        assert(chars@.subrange(0, 16) =~= s@);
    }
    read_digits(&chars, 0, 16, 16)
}

/// Renders an optional 64-bit value as its 17-character column text.
pub fn opt_bits_field(o: Option<F64Bits>) -> (r: String)
    ensures
        r@ == opt_bits_seq(o),
{
    let mut out: Vec<char> = Vec::new();
    push_opt_bits(&mut out, o);
    proof {
        assert(out@ =~= opt_bits_seq(o));
    }
    chars_to_string(&out)
}

/// Reads an optional 64-bit value back from its column text.
pub fn parse_opt_bits_field(s: &str) -> (r: Option<Option<F64Bits>>)
    ensures
        r == opt_bits_parse(s@),
{
    let chars = str_to_chars(s);
    if chars.len() != 17 {
        return None;
    }
    proof {
        assert(chars@.subrange(0, 17) =~= s@);
    }
    read_opt_bits(&chars, 0)
}

/// Renders an optional `i32` as its 9-character column text.
pub fn opt_i32_field(o: Option<i32>) -> (r: String)
    ensures
        r@ == opt_i32_seq(o),
{
    let mut out: Vec<char> = Vec::new();
    push_opt_i32(&mut out, o);
    proof {
        assert(out@ =~= opt_i32_seq(o));
    }
    chars_to_string(&out)
}

/// Renders a period kind as its one-character column text.
pub fn ptype_field(p: PeriodType) -> (r: String)
    ensures
        r@ == ptype_seq(p),
{
    let mut out: Vec<char> = Vec::new();
    match p {
        PeriodType::Annual => out.push('A'),
        PeriodType::Quarterly => out.push('Q'),
    }
    proof {
        assert(out@ =~= ptype_seq(p));
    }
    chars_to_string(&out)
}


/// A later capture timestamp renders as a lexicographically later text:
/// the SQL comparison `cached_at < cutoff` on the 16-digit timestamp
/// column agrees with the numeric order of the timestamps.
pub proof fn lemma_bits_text_order(t1: u64, t2: u64)
    requires
        t1 < t2,
    ensures
        lex_lt(digit_seq(16, 16, t1), digit_seq(16, 16, t2)),
{
    lemma_powb16_values();
    lemma_digit_seq_order(16, 16, t1, t2);
}

/// An earlier date renders as a lexicographically earlier text: SQL range
/// comparisons and ordering on the 24-digit date column agree with the
/// lexicographic date order.
pub proof fn lemma_date_text_order(d1: Date, d2: Date)
    requires
        d1.spec_le(d2),
        d1 != d2,
    ensures
        lex_lt(date_seq(d1), date_seq(d2)),
{
    lemma_powb16_values();
    lemma_piece_lens(d1.year, d1.month, d1, None, None);
    lemma_piece_lens(d2.year, d2.month, d2, None, None);
    let y1 = i32_seq(d1.year);
    let y2 = i32_seq(d2.year);
    let m1 = u32_seq(d1.month);
    let m2 = u32_seq(d2.month);
    let a1 = u32_seq(d1.day);
    let a2 = u32_seq(d2.day);
    assert(date_seq(d1) =~= y1 + (m1 + a1));
    assert(date_seq(d2) =~= y2 + (m2 + a2));
    if d1.year != d2.year {
        assert(biased_i32(d1.year) < biased_i32(d2.year));
        lemma_digit_seq_order(16, 8, biased_i32(d1.year), biased_i32(d2.year));
        lemma_lex_concat(y1, y2, m1 + a1, m2 + a2);
    } else {
        lemma_lex_concat(y1, y2, m1 + a1, m2 + a2);
        if d1.month != d2.month {
            lemma_digit_seq_order(16, 8, d1.month as u64, d2.month as u64);
            lemma_lex_concat(m1, m2, a1, a2);
        } else {
            lemma_lex_concat(m1, m2, a1, a2);
            lemma_digit_seq_order(16, 8, d1.day as u64, d2.day as u64);
        }
    }
}

} // verus!
