//! Lower-case hexadecimal encoding and a constant-time comparison.

use vstd::prelude::*;
use crate::text::push_char;
use crate::ids::is_lower_hex;

verus! {

/// The lower-case hexadecimal digit of a value below 16.
pub open spec fn hex_digit(n: u8) -> char {
    if n < 10 {
        (('0' as u8) + n) as char
    } else {
        (('a' as u8) + n - 10) as char
    }
}

/// The lower-case hexadecimal text of `bytes`: two digits per byte, high nibble first.
pub open spec fn hex_of(bytes: Seq<u8>) -> Seq<char>
    decreases bytes.len(),
{
    if bytes.len() == 0 {
        seq![]
    } else {
        hex_of(bytes.drop_last()) + seq![hex_digit(bytes.last() >> 4), hex_digit(bytes.last() & 0x0f)]
    }
}

/// Hexadecimal text is made of lower-case hexadecimal digits only.
pub proof fn lemma_hex_of_digits(bytes: Seq<u8>)
    ensures
        forall|i: int| 0 <= i < hex_of(bytes).len() ==> is_lower_hex(#[trigger] hex_of(bytes)[i]),
    decreases bytes.len(),
{
    if bytes.len() > 0 {
        let b = bytes.last();
        lemma_hex_of_digits(bytes.drop_last());
        assert((b >> 4) < 16 && (b & 0x0f) < 16) by (bit_vector);
        let hi = b >> 4;
        let lo = b & 0x0f;
        assert(is_lower_hex(hex_digit(hi)));
        assert(is_lower_hex(hex_digit(lo)));
        let prev = hex_of(bytes.drop_last());
        assert forall|i: int| 0 <= i < hex_of(bytes).len() implies is_lower_hex(#[trigger] hex_of(bytes)[i]) by {
            if i < prev.len() {
                assert(hex_of(bytes)[i] == prev[i]);
            }
        }
    }
}

/// The hexadecimal digit of a value below 16.
fn digit(n: u8) -> (c: char)
    requires
        n < 16,
    ensures
        c == hex_digit(n),
{
    if n < 10 {
        (('0' as u8) + n) as char
    } else {
        (('a' as u8) + n - 10) as char
    }
}

/// Encodes bytes as lower-case hexadecimal (see `hex_of`).
pub fn encode(bytes: &[u8]) -> (s: String)
    ensures
        s@ == hex_of(bytes@),
        s@.len() == 2 * bytes@.len(),
{
    let mut s = String::new();
    let mut i: usize = 0;
    assert(bytes@.take(0) =~= Seq::<u8>::empty());
    while i < bytes.len()
        invariant
            i <= bytes@.len(),
            s@ == hex_of(bytes@.take(i as int)),
            s@.len() == 2 * i,
        decreases bytes@.len() - i,
    {
        let v = bytes[i];
        assert((v >> 4) < 16 && (v & 0x0f) < 16) by (bit_vector);
        let hi = digit(v >> 4);
        let lo = digit(v & 0x0f);
        push_char(&mut s, hi);
        push_char(&mut s, lo);
        proof {
            assert(bytes@.take(i + 1).drop_last() =~= bytes@.take(i as int));
            assert(s@ =~= hex_of(bytes@.take(i as int)) + seq![hi, lo]);
        }
        i = i + 1;
    }
    assert(bytes@.take(i as int) =~= bytes@);
    s
}

/// Compares two strings byte by byte without stopping at the first difference (strings of
/// different byte lengths are unequal at once).
pub fn secure_eq(a: &str, b: &str) -> (eq: bool)
    ensures
        eq == (a@ == b@),
{
    let x = a.as_bytes();
    let y = b.as_bytes();
    proof {
        vstd::utf8::encode_utf8_decode_utf8(a@);
        vstd::utf8::encode_utf8_decode_utf8(b@);
    }
    if x.len() != y.len() {
        return false;
    }
    let mut out: u8 = 0;
    let mut i: usize = 0;
    while i < x.len()
        invariant
            i <= x@.len(),
            x@.len() == y@.len(),
            (out == 0) == (forall|j: int| 0 <= j < i ==> x@[j] == y@[j]),
        decreases x@.len() - i,
    {
        let p = x[i];
        let q = y[i];
        let next = out | (p ^ q);
        assert((next == 0) == (out == 0 && p == q)) by (bit_vector)
            requires
                next == out | (p ^ q),
        ;
        out = next;
        i = i + 1;
    }
    let eq = out == 0;
    proof {
        if eq {
            assert(x@ =~= y@);
        } else if a@ == b@ {
            assert(x@ == y@);
        }
    }
    eq
}

} // verus!
