//! Parsing of unsigned integers out of command tokens: decimal literals and
//! `0x`-prefixed hexadecimal literals.

use vstd::prelude::*;
use vstd::arithmetic::div_mod::lemma_breakdown;
use crate::numfmt::{hex_digit_byte, spec_hex_fixed};

verus! {

/// Whether `b` is an ASCII decimal digit.
pub open spec fn is_dec_digit(b: u8) -> bool {
    48 <= b <= 57
}

/// Whether `b` is an ASCII hex digit, either case.
pub open spec fn is_hex_digit(b: u8) -> bool {
    is_dec_digit(b) || (97 <= b <= 102) || (65 <= b <= 70)
}

/// Numeric value of a digit byte.
pub open spec fn digit_val(b: u8) -> int {
    if is_dec_digit(b) {
        b - 48
    } else if 97 <= b <= 102 {
        b - 97 + 10
    } else {
        b - 65 + 10
    }
}

/// The value of `s` read as a base-`base` numeral.
pub open spec fn numeral_val(s: Seq<u8>, base: int) -> int
    decreases s.len(),
{
    if s.len() == 0 {
        0
    } else {
        numeral_val(s.drop_last(), base) * base + digit_val(s.last())
    }
}

/// What parsing a decimal `u32` from `s` yields: a value exactly when `s` is
/// a nonempty string of decimal digits whose value fits.
pub open spec fn spec_parse_u32_dec(s: Seq<u8>) -> Option<u32> {
    if s.len() > 0 && (forall|k: int| 0 <= k < s.len() ==> is_dec_digit(s[k]))
        && numeral_val(s, 10) <= u32::MAX {
        Some(numeral_val(s, 10) as u32)
    } else {
        None
    }
}

/// What parsing a hexadecimal `u32` from `s` yields.
pub open spec fn spec_parse_u32_hex(s: Seq<u8>) -> Option<u32> {
    if s.len() > 0 && (forall|k: int| 0 <= k < s.len() ==> is_hex_digit(s[k]))
        && numeral_val(s, 16) <= u32::MAX {
        Some(numeral_val(s, 16) as u32)
    } else {
        None
    }
}

/// What parsing an address token yields: `0x`-prefixed hex, else decimal.
pub open spec fn spec_parse_addr(s: Seq<u8>) -> Option<u32> {
    if s.len() >= 2 && s[0] == 48 && s[1] == 120 {
        spec_parse_u32_hex(s.skip(2))
    } else {
        spec_parse_u32_dec(s)
    }
}

/// Extending a numeral by one digit multiplies and adds.
proof fn lemma_numeral_step(s: Seq<u8>, base: int, i: int)
    requires
        0 <= i < s.len(),
    ensures
        numeral_val(s.take(i + 1), base) == numeral_val(s.take(i), base) * base + digit_val(s[i]),
{
    assert(s.take(i + 1).drop_last() =~= s.take(i));
    assert(s.take(i + 1).last() == s[i]);
}

/// A numeral of digits only grows as digits are appended.
proof fn lemma_numeral_grows(s: Seq<u8>, base: int, i: int)
    requires
        2 <= base,
        0 <= i <= s.len(),
        forall|k: int| 0 <= k < s.len() ==> digit_val(s[k]) >= 0,
    ensures
        numeral_val(s.take(i), base) >= 0,
        numeral_val(s, base) >= numeral_val(s.take(i), base),
    decreases s.len() - i,
{
    if i == s.len() {
        assert(s.take(i) =~= s);
        lemma_numeral_nonneg(s, base);
    } else {
        lemma_numeral_grows(s, base, i + 1);
        lemma_numeral_step(s, base, i);
        let v = numeral_val(s.take(i), base);
        assert(numeral_val(s.take(i + 1), base) == v * base + digit_val(s[i]));
        assert(v >= 0 ==> v * base >= v) by (nonlinear_arith)
            requires base >= 2
        ;
        lemma_numeral_nonneg(s.take(i), base);
    }
}

proof fn lemma_numeral_nonneg(s: Seq<u8>, base: int)
    requires
        2 <= base,
        forall|k: int| 0 <= k < s.len() ==> digit_val(s[k]) >= 0,
    ensures
        numeral_val(s, base) >= 0,
    decreases s.len(),
{
    if s.len() > 0 {
        assert(forall|k: int| 0 <= k < s.drop_last().len() ==> digit_val(s.drop_last()[k]) >= 0);
        lemma_numeral_nonneg(s.drop_last(), base);
        let v = numeral_val(s.drop_last(), base);
        assert(v >= 0 ==> v * base >= 0) by (nonlinear_arith)
            requires base >= 2
        ;
        assert(digit_val(s.last()) >= 0);
    }
}

/// 16 to the `w`.
pub open spec fn pow16(w: nat) -> int
    decreases w,
{
    if w == 0 {
        1
    } else {
        16 * pow16((w - 1) as nat)
    }
}

proof fn lemma_hex_digit_byte_parses(d: int)
    requires
        0 <= d < 16,
    ensures
        is_hex_digit(hex_digit_byte(d)),
        digit_val(hex_digit_byte(d)) == d,
{
}

/// A fixed-width hex rendering is all hex digits, and its numeral value is
/// the rendered number, reduced modulo the width's range.
proof fn lemma_hex_fixed_parses(n: int, w: nat)
    requires
        0 <= n,
    ensures
        pow16(w) >= 1,
        spec_hex_fixed(n, w).len() == w,
        forall|k: int| 0 <= k < w ==> is_hex_digit(#[trigger] spec_hex_fixed(n, w)[k]),
        numeral_val(spec_hex_fixed(n, w), 16) == n % pow16(w),
    decreases w,
{
    if w == 0 {
        assert(n % 1 == 0);
    } else {
        let rest = spec_hex_fixed(n / 16, (w - 1) as nat);
        lemma_hex_fixed_parses(n / 16, (w - 1) as nat);
        let s = spec_hex_fixed(n, w);
        assert(s == rest + seq![hex_digit_byte(n % 16)]);
        assert(s.drop_last() =~= rest);
        assert(s.last() == hex_digit_byte(n % 16));
        lemma_hex_digit_byte_parses(n % 16);
        assert(numeral_val(s, 16) == numeral_val(rest, 16) * 16 + (n % 16));
        lemma_breakdown(n, 16, pow16((w - 1) as nat));
        assert(n % (16 * pow16((w - 1) as nat)) == 16 * ((n / 16) % pow16((w - 1) as nat)) + n % 16);
        assert(forall|k: int| 0 <= k < w - 1 ==> s[k] == #[trigger] rest[k]);
    }
}

/// The round trip behind the wire protocol: an address rendered as the eight
/// hex digits of a response record re-parses, with its `0x` prefix, to the
/// same address, so a host can stop exactly the stream it registered by
/// echoing the address back.
pub proof fn lemma_addr_round_trip(addr: u32)
    ensures
        spec_parse_addr(seq![48u8, 120u8] + spec_hex_fixed(addr as int, 8)) == Some(addr),
{
    let hex = spec_hex_fixed(addr as int, 8);
    let s = seq![48u8, 120u8] + hex;
    lemma_hex_fixed_parses(addr as int, 8);
    assert(s[0] == 48 && s[1] == 120);
    assert(s.skip(2) =~= hex);
    reveal_with_fuel(pow16, 9);
    assert(pow16(8) == 0x100000000);
    assert(addr as int % 0x100000000 == addr);
}

/// Reads the decimal digit at `s[i]`, if there is one.
fn dec_digit_at(s: &[u8], i: usize) -> (d: Option<u8>)
    requires
        i < s@.len(),
    ensures
        d is Some <==> is_dec_digit(s@[i as int]),
        d is Some ==> d->0 == digit_val(s@[i as int]),
{
    let b = s[i];
    if 48 <= b && b <= 57 {
        Some(b - 48)
    } else {
        None
    }
}

/// Reads the hex digit at `s[i]`, either case, if there is one.
fn hex_digit_at(s: &[u8], i: usize) -> (d: Option<u8>)
    requires
        i < s@.len(),
    ensures
        d is Some <==> is_hex_digit(s@[i as int]),
        d is Some ==> d->0 == digit_val(s@[i as int]),
{
    let b = s[i];
    if 48 <= b && b <= 57 {
        Some(b - 48)
    } else if 97 <= b && b <= 102 {
        Some(b - 97 + 10)
    } else if 65 <= b && b <= 70 {
        Some(b - 65 + 10)
    } else {
        None
    }
}

/// Parses a nonempty all-decimal token into a `u32`, rejecting overflow.
pub fn parse_u32_dec(s: &[u8]) -> (r: Option<u32>)
    ensures
        r == spec_parse_u32_dec(s@),
{
    parse_u32_digits(s, false)
}

/// Parses a nonempty all-hex token into a `u32`, rejecting overflow.
pub fn parse_u32_hex(s: &[u8]) -> (r: Option<u32>)
    ensures
        r == spec_parse_u32_hex(s@),
{
    parse_u32_digits(s, true)
}

/// Shared digit loop for both bases.
fn parse_u32_digits(s: &[u8], hex: bool) -> (r: Option<u32>)
    ensures
        r == if hex { spec_parse_u32_hex(s@) } else { spec_parse_u32_dec(s@) },
{
    let ghost base: int = if hex { 16 } else { 10 };
    if s.len() == 0 {
        return None;
    }
    let mut val: u64 = 0;
    let mut i: usize = 0;
    while i < s.len()
        invariant
            i <= s@.len(),
            s@.len() > 0,
            base == if hex { 16int } else { 10int },
            forall|k: int| 0 <= k < i ==> (if hex { is_hex_digit(s@[k]) } else { is_dec_digit(s@[k]) }),
            val == numeral_val(s@.take(i as int), base),
            val <= u32::MAX,
        decreases s@.len() - i,
    {
        let d = if hex { hex_digit_at(s, i) } else { dec_digit_at(s, i) };
        match d {
            None => {
                return None;
            },
            Some(d) => {
                proof {
                    lemma_numeral_step(s@, base, i as int);
                }
                val = if hex { val * 16 } else { val * 10 } + d as u64;
                i = i + 1;
                if val > u32::MAX as u64 {
                    proof {
                        if forall|k: int| 0 <= k < s@.len()
                            ==> (if hex { is_hex_digit(s@[k]) } else { is_dec_digit(s@[k]) }) {
                            assert(forall|k: int| 0 <= k < s@.len() ==> digit_val(s@[k]) >= 0);
                            lemma_numeral_grows(s@, base, i as int);
                        }
                    }
                    return None;
                }
            },
        }
    }
    proof {
        assert(s@.take(s@.len() as int) =~= s@);
    }
    Some(val as u32)
}

/// Parses an address token: a `0x`-prefixed hexadecimal literal or a decimal
/// literal.
pub fn parse_addr(s: &[u8]) -> (r: Option<u32>)
    ensures
        r == spec_parse_addr(s@),
{
    if s.len() >= 2 && s[0] == 48 && s[1] == 120 {
        let rest = copy_tail(s, 2);
        parse_u32_hex(rest.as_slice())
    } else {
        parse_u32_dec(s)
    }
}

/// Copies `s[from..]` into a fresh vector.
fn copy_tail(s: &[u8], from: usize) -> (out: Vec<u8>)
    requires
        from <= s@.len(),
    ensures
        out@ == s@.skip(from as int),
{
    let out = crate::tokenize::copy_range(s, from, s.len());
    proof {
        assert(s@.subrange(from as int, s@.len() as int) =~= s@.skip(from as int));
    }
    out
}

} // verus!
