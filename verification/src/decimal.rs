//! Decimal text of the integer kinds that appear in the object syntax:
//! object numbers, generation numbers, and integer primitives.

use vstd::prelude::*;

verus! {

/// The decimal digits of `n`, most significant first; empty for `n == 0`.
pub open spec fn dec_digits(n: nat) -> Seq<u8>
    decreases n,
{
    if n == 0 {
        Seq::empty()
    } else {
        dec_digits(n / 10) + seq![(48 + n % 10) as u8]
    }
}

/// The decimal text of an unsigned number: `"0"` for zero, else its digits.
pub open spec fn dec_u64(n: nat) -> Seq<u8> {
    if n == 0 {
        seq![48u8]
    } else {
        dec_digits(n)
    }
}

/// The decimal text of a signed number: a `-` before the digits when negative.
pub open spec fn dec_i32(n: int) -> Seq<u8> {
    if n < 0 {
        seq![45u8] + dec_u64((-n) as nat)
    } else {
        dec_u64(n as nat)
    }
}

/// Appends the decimal text of `n` to `out`.
pub fn write_u64(n: u64, out: &mut Vec<u8>)
    ensures
        final(out)@ == old(out)@ + dec_u64(n as nat),
{
    if n == 0 {
        out.push(48u8);
        assert(out@ =~= old(out)@ + dec_u64(n as nat));
        return;
    }
    let mut digits: Vec<u8> = Vec::new();
    let mut m: u64 = n;
    while m > 0
        invariant
            dec_digits(n as nat) =~= dec_digits(m as nat) + digits@.reverse(),
        decreases m,
    {
        let d: u8 = (m % 10) as u8 + 48;
        let ghost prev = digits@;
        digits.push(d);
        m = m / 10;
        assert(digits@.reverse() =~= seq![d] + prev.reverse());
        assert(dec_digits(n as nat) =~= dec_digits(m as nat) + digits@.reverse());
    }
    assert(digits@.reverse() =~= dec_digits(n as nat));
    let mut i: usize = digits.len();
    while i > 0
        invariant
            i <= digits@.len(),
            out@ =~= old(out)@ + digits@.subrange(i as int, digits@.len() as int).reverse(),
        decreases i,
    {
        i = i - 1;
        let d: u8 = digits[i];
        out.push(d);
        assert(out@ =~= old(out)@ + digits@.subrange(i as int, digits@.len() as int).reverse());
    }
    assert(digits@.subrange(0, digits@.len() as int) =~= digits@);
    assert(out@ =~= old(out)@ + dec_u64(n as nat));
}

/// Appends the decimal text of `n` to `out`, with a sign when negative.
pub fn write_i32(n: i32, out: &mut Vec<u8>)
    ensures
        final(out)@ == old(out)@ + dec_i32(n as int),
{
    if n < 0 {
        out.push(45u8);
        let mag: u64 = (-(n as i64)) as u64;
        write_u64(mag, out);
        assert(out@ =~= old(out)@ + dec_i32(n as int));
    } else {
        write_u64(n as u64, out);
    }
}

} // verus!
