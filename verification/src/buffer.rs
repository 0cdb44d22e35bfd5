//! The byte buffers of the `bytes` crate, as far as the packet codec uses them.
//!
//! Verus does not look into these buffers. What they hold has a name here, and each operation
//! says what it does to it.

use vstd::prelude::*;

verus! {

#[verifier::external_type_specification]
#[verifier::external_body]
pub struct ExBytesMut(bytes::BytesMut);

#[verifier::external_type_specification]
#[verifier::external_body]
pub struct ExBytes(bytes::Bytes);

/// The bytes that a `BytesMut` holds, first to last.
pub uninterp spec fn bytes_mut_contents(b: bytes::BytesMut) -> Seq<u8>;

/// The bytes that a `Bytes` holds, first to last.
pub uninterp spec fn bytes_contents(b: bytes::Bytes) -> Seq<u8>;

/// `Deref::deref` of `bytes::BytesMut`: the slice of all bytes that the buffer holds.
#[verifier::external_body]
pub(crate) fn bytes_mut_as_slice(b: &bytes::BytesMut) -> (r: &[u8])
    ensures
        r@ == bytes_mut_contents(*b),
{
    &b[..]
}

/// `bytes::BytesMut::advance`: drops the first `cnt` bytes and keeps the rest. The outside
/// function panics if `cnt` is greater than the length.
#[verifier::external_body]
pub(crate) fn bytes_mut_advance(b: &mut bytes::BytesMut, cnt: usize)
    requires
        cnt <= bytes_mut_contents(*old(b)).len(),
    ensures
        bytes_mut_contents(*final(b)) == bytes_mut_contents(*old(b)).skip(cnt as int),
{
    b.advance(cnt)
}

/// `bytes::BytesMut::extend_from_slice`: appends the given bytes, growing the buffer where
/// needed.
#[verifier::external_body]
pub(crate) fn bytes_mut_extend_from_slice(b: &mut bytes::BytesMut, extend: &[u8])
    ensures
        bytes_mut_contents(*final(b)) == bytes_mut_contents(*old(b)) + extend@,
{
    b.extend_from_slice(extend)
}

/// `From<&[u8]>` of `bytes::Bytes`: a buffer that holds a copy of the given bytes.
#[verifier::external_body]
pub(crate) fn bytes_from_slice(src: &[u8]) -> (b: bytes::Bytes)
    ensures
        bytes_contents(b) == src@,
{
    bytes::Bytes::from(src)
}

/// `Deref::deref` of `bytes::Bytes`: the slice of all bytes that the buffer holds.
#[verifier::external_body]
pub(crate) fn bytes_as_slice(b: &bytes::Bytes) -> (r: &[u8])
    ensures
        r@ == bytes_contents(*b),
{
    &b[..]
}

} // verus!
