//! Rendering of numbers for outbound records: decimal, fixed-width lowercase
//! hexadecimal, and lowercase hex dumps of byte strings. Records are ASCII
//! byte lines, so everything renders to bytes.

use vstd::prelude::*;

verus! {

/// The ASCII decimal digit for `d` (0 to 9).
pub open spec fn dec_digit_byte(d: int) -> u8 {
    (48 + d) as u8
}

/// The ASCII lowercase hex digit for `d` (0 to 15).
pub open spec fn hex_digit_byte(d: int) -> u8 {
    if d < 10 {
        (48 + d) as u8
    } else {
        (87 + d) as u8
    }
}

/// Decimal rendering of `n`, without leading zeros (`0` for zero).
pub open spec fn spec_dec(n: int) -> Seq<u8>
    decreases n,
{
    if n < 10 {
        seq![dec_digit_byte(n)]
    } else {
        spec_dec(n / 10) + seq![dec_digit_byte(n % 10)]
    }
}

/// Decimal rendering of a signed value: a minus sign before the digits of
/// the magnitude.
pub open spec fn spec_dec_signed(n: int) -> Seq<u8> {
    if n < 0 {
        seq![45u8] + spec_dec(-n)
    } else {
        spec_dec(n)
    }
}

/// `width`-digit lowercase hex rendering of `n mod 16^width`.
pub open spec fn spec_hex_fixed(n: int, width: nat) -> Seq<u8>
    decreases width,
{
    if width == 0 {
        Seq::empty()
    } else {
        spec_hex_fixed(n / 16, (width - 1) as nat) + seq![hex_digit_byte(n % 16)]
    }
}

/// Lowercase hex dump of `bytes`: two digits per byte, in order.
pub open spec fn spec_hex_dump(bytes: Seq<u8>) -> Seq<u8>
    decreases bytes.len(),
{
    if bytes.len() == 0 {
        Seq::empty()
    } else {
        seq![hex_digit_byte(bytes[0] as int / 16), hex_digit_byte(bytes[0] as int % 16)]
            + spec_hex_dump(bytes.drop_first())
    }
}

/// A hex dump distributes over concatenation.
pub proof fn lemma_hex_dump_concat(a: Seq<u8>, b: Seq<u8>)
    ensures
        spec_hex_dump(a + b) == spec_hex_dump(a) + spec_hex_dump(b),
    decreases a.len(),
{
    if a.len() == 0 {
        assert(a + b =~= b);
        assert(spec_hex_dump(a) + spec_hex_dump(b) =~= spec_hex_dump(b));
    } else {
        lemma_hex_dump_concat(a.drop_first(), b);
        assert((a + b).drop_first() =~= a.drop_first() + b);
        assert(spec_hex_dump(a + b) =~= spec_hex_dump(a) + spec_hex_dump(b));
    }
}

/// Appends the decimal rendering of `n` to `out`.
pub fn append_dec(out: &mut Vec<u8>, n: u64)
    ensures
        final(out)@ == old(out)@ + spec_dec(n as int),
    decreases n,
{
    if n >= 10 {
        append_dec(out, n / 10);
    }
    out.push(48 + (n % 10) as u8);
    proof {
        if n < 10 {
            assert(old(out)@ + spec_dec(n as int) =~= old(out)@ + seq![dec_digit_byte(n as int)]);
        } else {
            assert(old(out)@ + spec_dec(n as int)
                =~= (old(out)@ + spec_dec(n as int / 10)) + seq![dec_digit_byte(n as int % 10)]);
        }
    }
}

/// Appends the signed decimal rendering of `n` to `out`.
pub fn append_dec_signed(out: &mut Vec<u8>, n: i64)
    requires
        n > i64::MIN,
    ensures
        final(out)@ == old(out)@ + spec_dec_signed(n as int),
{
    if n < 0 {
        out.push(45);
        append_dec(out, (-n) as u64);
        proof {
            assert(out@ =~= old(out)@ + spec_dec_signed(n as int));
        }
    } else {
        append_dec(out, n as u64);
    }
}

/// Pushes the lowercase hex digit for `d` (0 to 15).
fn push_hex_digit(out: &mut Vec<u8>, d: u8)
    requires
        d < 16,
    ensures
        final(out)@ == old(out)@ + seq![hex_digit_byte(d as int)],
{
    if d < 10 {
        out.push(48 + d);
    } else {
        out.push(87 + d);
    }
}

/// Appends the `width`-digit lowercase hex rendering of `n` to `out`.
pub fn append_hex_fixed(out: &mut Vec<u8>, n: u32, width: u32)
    ensures
        final(out)@ == old(out)@ + spec_hex_fixed(n as int, width as nat),
    decreases width,
{
    if width == 0 {
        proof {
            assert(old(out)@ + spec_hex_fixed(n as int, 0) =~= old(out)@);
        }
        return;
    }
    append_hex_fixed(out, n / 16, width - 1);
    push_hex_digit(out, (n % 16) as u8);
    proof {
        assert(old(out)@ + spec_hex_fixed(n as int, width as nat)
            =~= (old(out)@ + spec_hex_fixed(n as int / 16, (width - 1) as nat))
                + seq![hex_digit_byte(n as int % 16)]);
    }
}

/// Appends the lowercase hex dump of `bytes` to `out`.
pub fn append_hex_dump(out: &mut Vec<u8>, bytes: &Vec<u8>)
    ensures
        final(out)@ == old(out)@ + spec_hex_dump(bytes@),
{
    let mut i: usize = 0;
    while i < bytes.len()
        invariant
            i <= bytes@.len(),
            out@ == old(out)@ + spec_hex_dump(bytes@.take(i as int)),
        decreases bytes@.len() - i,
    {
        let b = bytes[i];
        push_hex_digit(out, b / 16);
        push_hex_digit(out, b % 16);
        proof {
            assert(bytes@.take(i + 1) =~= bytes@.take(i as int) + seq![bytes@[i as int]]);
            lemma_hex_dump_concat(bytes@.take(i as int), seq![bytes@[i as int]]);
            reveal_with_fuel(spec_hex_dump, 2);
            assert(seq![bytes@[i as int]].drop_first() =~= Seq::<u8>::empty());
            assert(spec_hex_dump(seq![bytes@[i as int]])
                =~= seq![hex_digit_byte(b as int / 16), hex_digit_byte(b as int % 16)]);
            assert(out@ =~= old(out)@ + spec_hex_dump(bytes@.take(i + 1)));
        }
        i = i + 1;
    }
    proof {
        assert(bytes@.take(bytes@.len() as int) =~= bytes@);
    }
}

} // verus!
