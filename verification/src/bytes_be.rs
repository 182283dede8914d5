//! Big-endian integer fields, read and written through `byteorder`.

use vstd::prelude::*;
use byteorder::{BigEndian, ByteOrder, WriteBytesExt};
use vstd::arithmetic::div_mod::lemma_fundamental_div_mod_converse;

verus! {

/// The two big-endian bytes of a 16-bit value.
pub open spec fn be16(n: u16) -> Seq<u8> {
    seq![(n / 256) as u8, (n % 256) as u8]
}

/// The four big-endian bytes of a 32-bit value.
pub open spec fn be32(n: u32) -> Seq<u8> {
    seq![(n / 16777216) as u8, ((n / 65536) % 256) as u8, ((n / 256) % 256) as u8, (n % 256) as u8]
}

/// The 16-bit value that two big-endian bytes stand for.
pub open spec fn from_be16(b0: u8, b1: u8) -> u16 {
    (b0 as int * 256 + b1 as int) as u16
}

/// The 32-bit value that four big-endian bytes stand for.
pub open spec fn from_be32(b0: u8, b1: u8, b2: u8, b3: u8) -> u32 {
    (b0 as int * 16777216 + b1 as int * 65536 + b2 as int * 256 + b3 as int) as u32
}

/// Reading back the bytes of a 16-bit value gives the value.
pub proof fn lemma_be16_roundtrip(n: u16)
    ensures
        be16(n).len() == 2,
        from_be16(be16(n)[0], be16(n)[1]) == n,
{
}

/// Reading back the bytes of a 32-bit value gives the value.
pub proof fn lemma_be32_roundtrip(n: u32)
    ensures
        be32(n).len() == 4,
        from_be32(be32(n)[0], be32(n)[1], be32(n)[2], be32(n)[3]) == n,
{
}

/// Writing the value that two bytes stand for gives the bytes back.
pub proof fn lemma_from_be16_roundtrip(b0: u8, b1: u8)
    ensures
        be16(from_be16(b0, b1)) == seq![b0, b1],
{
    assert(be16(from_be16(b0, b1)) =~= seq![b0, b1]);
}

/// Writing the value that four bytes stand for gives the bytes back.
pub proof fn lemma_from_be32_roundtrip(b0: u8, b1: u8, b2: u8, b3: u8)
    ensures
        be32(from_be32(b0, b1, b2, b3)) == seq![b0, b1, b2, b3],
{
    let x: int = b0 as int * 16777216 + b1 as int * 65536 + b2 as int * 256 + b3 as int;
    let hi: int = b1 as int * 65536 + b2 as int * 256 + b3 as int;
    let mid: int = b0 as int * 256 + b1 as int;
    let lo: int = b2 as int * 256 + b3 as int;
    assert(from_be32(b0, b1, b2, b3) == x);
    lemma_fundamental_div_mod_converse(x, 16777216, b0 as int, hi);
    lemma_fundamental_div_mod_converse(x, 65536, mid, lo);
    lemma_fundamental_div_mod_converse(mid, 256, b0 as int, b1 as int);
    lemma_fundamental_div_mod_converse(x, 256, x / 256, b3 as int);
    assert(x / 256 == b0 as int * 65536 + b1 as int * 256 + b2 as int);
    lemma_fundamental_div_mod_converse(x / 256, 256, b0 as int * 256 + b1 as int, b2 as int);
    assert(be32(from_be32(b0, b1, b2, b3)) =~= seq![b0, b1, b2, b3]);
}

/// Appends `n` in big-endian order through `byteorder::WriteBytesExt::write_u16`.
/// Writing to a `Vec` never fails, so the call cannot return an error; the
/// contract claims that the two bytes of `n`, high byte first, are appended.
#[verifier::external_body]
pub(crate) fn append_u16_be(buf: &mut Vec<u8>, n: u16)
    ensures
        final(buf)@ == old(buf)@ + be16(n),
{
    buf.write_u16::<BigEndian>(n).unwrap();
}

/// Appends `n` in big-endian order through `byteorder::WriteBytesExt::write_u32`.
/// Writing to a `Vec` never fails; the contract claims that the four bytes of
/// `n`, highest first, are appended.
#[verifier::external_body]
pub(crate) fn append_u32_be(buf: &mut Vec<u8>, n: u32)
    ensures
        final(buf)@ == old(buf)@ + be32(n),
{
    buf.write_u32::<BigEndian>(n).unwrap();
}

/// Reads the big-endian 16-bit value at `at` through `byteorder::BigEndian::read_u16`,
/// which reads the first two bytes of the slice it is given.
#[verifier::external_body]
pub(crate) fn read_u16_be(data: &[u8], at: usize) -> (r: u16)
    requires
        at + 2 <= data@.len(),
    ensures
        r == from_be16(data@[at as int], data@[at + 1]),
{
    BigEndian::read_u16(&data[at..at + 2])
}

/// Reads the big-endian 32-bit value at `at` through `byteorder::BigEndian::read_u32`,
/// which reads the first four bytes of the slice it is given.
#[verifier::external_body]
pub(crate) fn read_u32_be(data: &[u8], at: usize) -> (r: u32)
    requires
        at + 4 <= data@.len(),
    ensures
        r == from_be32(data@[at as int], data@[at + 1], data@[at + 2], data@[at + 3]),
{
    BigEndian::read_u32(&data[at..at + 4])
}

} // verus!
