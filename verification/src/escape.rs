//! Escaping of literal text: the bytes `(`, `)` and `\` each get one `\`
//! written before them; every other byte passes through unchanged.

use vstd::prelude::*;
use vstd::slice::slice_index_get;
use vstd::string::StringSliceAdditionalSpecFns;

verus! {

/// Is `b` one of the bytes that the literal syntax escapes?
pub open spec fn needs_escape(b: u8) -> bool {
    b == 40 || b == 41 || b == 92
}

/// The escaped form of one byte: `(`, `)` and `\` get a `\` before them.
pub open spec fn escaped_byte(b: u8) -> Seq<u8> {
    if needs_escape(b) {
        seq![92u8, b]
    } else {
        seq![b]
    }
}

/// The escaped form of a byte string, byte for byte.
pub open spec fn escaped(s: Seq<u8>) -> Seq<u8>
    decreases s.len(),
{
    if s.len() == 0 {
        Seq::empty()
    } else {
        escaped(s.drop_last()) + escaped_byte(s.last())
    }
}

/// Growing the input by one byte grows the output by that byte's escaped
/// form: an escaped byte arrives behind exactly one `\`, any other byte
/// arrives unchanged. This is the shape of the whole escaping, applied
/// position by position.
pub proof fn lemma_escaped_step(s: Seq<u8>, i: int)
    requires
        0 <= i < s.len(),
    ensures
        escaped(s.take(i + 1)) == escaped(s.take(i)) + escaped_byte(s[i]),
        needs_escape(s[i]) ==> escaped_byte(s[i]) == seq![92u8, s[i]],
        !needs_escape(s[i]) ==> escaped_byte(s[i]) == seq![s[i]],
{
    assert(s.take(i + 1).drop_last() =~= s.take(i));
    assert(s.take(i + 1).last() == s[i]);
}

/// Appends the bytes of `s` to `out` unchanged.
pub fn write_verbatim(s: &str, out: &mut Vec<u8>)
    ensures
        final(out)@ == old(out)@ + s.spec_bytes(),
{
    let bytes: &[u8] = s.as_bytes();
    let n: usize = bytes.len();
    let mut i: usize = 0;
    while i < n
        invariant
            n == bytes@.len(),
            bytes@ == s.spec_bytes(),
            i <= n,
            out@ =~= old(out)@ + bytes@.take(i as int),
        decreases n - i,
    {
        let b: u8 = *slice_index_get(bytes, i);
        out.push(b);
        i = i + 1;
        assert(out@ =~= old(out)@ + bytes@.take(i as int));
    }
    assert(bytes@.take(n as int) =~= bytes@);
}

/// Appends the escaped bytes of `s` to `out`.
pub fn write_escaped(s: &str, out: &mut Vec<u8>)
    ensures
        final(out)@ == old(out)@ + escaped(s.spec_bytes()),
{
    let bytes: &[u8] = s.as_bytes();
    let n: usize = bytes.len();
    let mut i: usize = 0;
    while i < n
        invariant
            n == bytes@.len(),
            bytes@ == s.spec_bytes(),
            i <= n,
            out@ =~= old(out)@ + escaped(bytes@.take(i as int)),
        decreases n - i,
    {
        let b: u8 = *slice_index_get(bytes, i);
        if b == 40 || b == 41 || b == 92 {
            out.push(92u8);
        }
        out.push(b);
        i = i + 1;
        proof {
            lemma_escaped_step(bytes@, i - 1);
            assert(out@ =~= old(out)@ + escaped(bytes@.take(i as int)));
        }
    }
    assert(bytes@.take(n as int) =~= bytes@);
}

} // verus!
