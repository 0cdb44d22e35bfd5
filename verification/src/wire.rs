//! Big-endian integers as they stand in packets and tagstructs.
//!
//! The conversions themselves are done by the `byteorder` crate. This module states what they
//! compute and proves that reading undoes writing.

use vstd::prelude::*;
use byteorder::ByteOrder;
use byteorder::WriteBytesExt;

verus! {

/// The unsigned 32 bit integer that the first 4 bytes of `s` hold, most significant byte first.
pub open spec fn be_u32(s: Seq<u8>) -> u32
    recommends
        s.len() >= 4,
{
    (s[0] as int * 0x100_0000 + s[1] as int * 0x1_0000 + s[2] as int * 0x100 + s[3] as int) as u32
}

/// The 4 bytes that hold `n`, most significant byte first.
pub open spec fn be_bytes_u32(n: u32) -> Seq<u8> {
    seq![
        (n as int / 0x100_0000) as u8,
        (n as int / 0x1_0000 % 0x100) as u8,
        (n as int / 0x100 % 0x100) as u8,
        (n as int % 0x100) as u8,
    ]
}

/// The unsigned 64 bit integer that the first 8 bytes of `s` hold, most significant byte first.
pub open spec fn be_u64(s: Seq<u8>) -> u64
    recommends
        s.len() >= 8,
{
    (be_u32(s) as int * 0x1_0000_0000 + be_u32(s.skip(4)) as int) as u64
}

/// The 8 bytes that hold `n`, most significant byte first.
pub open spec fn be_bytes_u64(n: u64) -> Seq<u8> {
    be_bytes_u32((n as int / 0x1_0000_0000) as u32) + be_bytes_u32((n as int % 0x1_0000_0000) as u32)
}

/// The signed integer with the same 64 bits as `u`, in two's complement.
pub open spec fn signed64(u: u64) -> i64 {
    if u < 0x8000_0000_0000_0000 {
        u as i64
    } else {
        (u as int - 0x1_0000_0000_0000_0000) as i64
    }
}

/// The unsigned integer with the same 64 bits as `i`, in two's complement.
pub open spec fn unsigned64(i: i64) -> u64 {
    if i >= 0 {
        i as u64
    } else {
        (i as int + 0x1_0000_0000_0000_0000) as u64
    }
}

/// The signed integer with the same 32 bits as `u`, in two's complement.
pub open spec fn signed32(u: u32) -> i32 {
    if u < 0x8000_0000 {
        u as i32
    } else {
        (u as int - 0x1_0000_0000) as i32
    }
}

/// The unsigned integer with the same 32 bits as `i`, in two's complement.
pub open spec fn unsigned32(i: i32) -> u32 {
    if i >= 0 {
        i as u32
    } else {
        (i as int + 0x1_0000_0000) as u32
    }
}

/// The signed 32 bit integer that the first 4 bytes of `s` hold, most significant byte first.
pub open spec fn be_i32(s: Seq<u8>) -> i32
    recommends
        s.len() >= 4,
{
    signed32(be_u32(s))
}

/// The 4 bytes that hold `n` in two's complement, most significant byte first.
pub open spec fn be_bytes_i32(n: i32) -> Seq<u8> {
    be_bytes_u32(unsigned32(n))
}

/// The signed 64 bit integer that the first 8 bytes of `s` hold, most significant byte first.
pub open spec fn be_i64(s: Seq<u8>) -> i64
    recommends
        s.len() >= 8,
{
    signed64(be_u64(s))
}

/// The 8 bytes that hold `n` in two's complement, most significant byte first.
pub open spec fn be_bytes_i64(n: i64) -> Seq<u8> {
    be_bytes_u64(unsigned64(n))
}

/// Reading 4 bytes that were written for `n` gives `n`, whatever follows them.
#[verifier::rlimit(40)]
pub proof fn lemma_be_u32_roundtrip(n: u32, rest: Seq<u8>)
    ensures
        be_bytes_u32(n).len() == 4,
        be_u32(be_bytes_u32(n) + rest) == n,
{
    let s = be_bytes_u32(n) + rest;
    assert(s[0] == be_bytes_u32(n)[0]);
    assert(s[1] == be_bytes_u32(n)[1]);
    assert(s[2] == be_bytes_u32(n)[2]);
    assert(s[3] == be_bytes_u32(n)[3]);
}

/// Reading 8 bytes that were written for `n` gives `n`, whatever follows them.
#[verifier::rlimit(40)]
pub proof fn lemma_be_u64_roundtrip(n: u64, rest: Seq<u8>)
    ensures
        be_bytes_u64(n).len() == 8,
        be_u64(be_bytes_u64(n) + rest) == n,
{
    let hi = (n as int / 0x1_0000_0000) as u32;
    let lo = (n as int % 0x1_0000_0000) as u32;
    let s = be_bytes_u64(n) + rest;
    lemma_be_u32_roundtrip(hi, be_bytes_u32(lo) + rest);
    lemma_be_u32_roundtrip(lo, rest);
    assert(s =~= be_bytes_u32(hi) + (be_bytes_u32(lo) + rest));
    assert(s.skip(4) =~= be_bytes_u32(lo) + rest);
}

/// Reading 8 bytes that were written for the signed `n` gives `n`, whatever follows them.
pub proof fn lemma_be_i64_roundtrip(n: i64, rest: Seq<u8>)
    ensures
        be_bytes_i64(n).len() == 8,
        be_i64(be_bytes_i64(n) + rest) == n,
{
    lemma_be_u64_roundtrip(unsigned64(n), rest);
}

/// Reading 4 bytes that were written for the signed `n` gives `n`, whatever follows them.
pub proof fn lemma_be_i32_roundtrip(n: i32, rest: Seq<u8>)
    ensures
        be_bytes_i32(n).len() == 4,
        be_i32(be_bytes_i32(n) + rest) == n,
{
    lemma_be_u32_roundtrip(unsigned32(n), rest);
}

/// `byteorder::BigEndian::read_u32`: the value of the first 4 bytes of `buf`, read most
/// significant byte first. The outside function panics on a shorter slice.
#[verifier::external_body]
pub(crate) fn read_be_u32(buf: &[u8]) -> (n: u32)
    requires
        buf@.len() >= 4,
    ensures
        n == be_u32(buf@),
{
    byteorder::BigEndian::read_u32(buf)
}

/// `byteorder::BigEndian::read_i32`: the first 4 bytes of `buf`, read most significant byte
/// first as a number in two's complement. The outside function panics on a shorter slice.
#[verifier::external_body]
pub(crate) fn read_be_i32(buf: &[u8]) -> (n: i32)
    requires
        buf@.len() >= 4,
    ensures
        n == be_i32(buf@),
{
    byteorder::BigEndian::read_i32(buf)
}

/// `byteorder::BigEndian::read_u64`: the value of the first 8 bytes of `buf`, read most
/// significant byte first. The outside function panics on a shorter slice.
#[verifier::external_body]
pub(crate) fn read_be_u64(buf: &[u8]) -> (n: u64)
    requires
        buf@.len() >= 8,
    ensures
        n == be_u64(buf@),
{
    byteorder::BigEndian::read_u64(buf)
}

/// `byteorder::BigEndian::read_i64`: the first 8 bytes of `buf`, read most significant byte
/// first as a number in two's complement. The outside function panics on a shorter slice.
#[verifier::external_body]
pub(crate) fn read_be_i64(buf: &[u8]) -> (n: i64)
    requires
        buf@.len() >= 8,
    ensures
        n == be_i64(buf@),
{
    byteorder::BigEndian::read_i64(buf)
}

/// `byteorder::WriteBytesExt::write_u32` in network byte order on a `Vec<u8>`: appends the 4
/// bytes of `n`, most significant first. Writing to a vector reports no error.
#[verifier::external_body]
pub(crate) fn write_be_u32(buf: &mut Vec<u8>, n: u32)
    ensures
        final(buf)@ == old(buf)@ + be_bytes_u32(n),
{
    let _ = buf.write_u32::<byteorder::NetworkEndian>(n);
}

/// `byteorder::WriteBytesExt::write_i32` in network byte order on a `Vec<u8>`: appends the 4
/// bytes of `n` in two's complement, most significant first. Writing to a vector reports no
/// error.
#[verifier::external_body]
pub(crate) fn write_be_i32(buf: &mut Vec<u8>, n: i32)
    ensures
        final(buf)@ == old(buf)@ + be_bytes_i32(n),
{
    let _ = buf.write_i32::<byteorder::NetworkEndian>(n);
}

/// `byteorder::WriteBytesExt::write_u64` in network byte order on a `Vec<u8>`: appends the 8
/// bytes of `n`, most significant first. Writing to a vector reports no error.
#[verifier::external_body]
pub(crate) fn write_be_u64(buf: &mut Vec<u8>, n: u64)
    ensures
        final(buf)@ == old(buf)@ + be_bytes_u64(n),
{
    let _ = buf.write_u64::<byteorder::NetworkEndian>(n);
}

/// `byteorder::WriteBytesExt::write_i64` in network byte order on a `Vec<u8>`: appends the 8
/// bytes of `n` in two's complement, most significant first. Writing to a vector reports no
/// error.
#[verifier::external_body]
pub(crate) fn write_be_i64(buf: &mut Vec<u8>, n: i64)
    ensures
        final(buf)@ == old(buf)@ + be_bytes_i64(n),
{
    let _ = buf.write_i64::<byteorder::NetworkEndian>(n);
}

} // verus!
