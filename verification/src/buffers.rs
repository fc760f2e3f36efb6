//! The byte buffers that frames travel in, and the conversions between them
//! that the channel relies on. None of these is proved here: each contract
//! states what the `bytes` crate does.

use vstd::prelude::*;

verus! {

/// `bytes::Bytes`, carried as an opaque value. All that is said of one is
/// which bytes it holds.
#[verifier::external_type_specification]
#[verifier::external_body]
pub struct ExBytes(bytes::Bytes);

/// `bytes::BytesMut`, carried as an opaque value. All that is said of one
/// is which bytes it holds.
#[verifier::external_type_specification]
#[verifier::external_body]
pub struct ExBytesMut(bytes::BytesMut);

/// The bytes that an immutable buffer holds, first to last: the slice that
/// it dereferences to.
pub uninterp spec fn bytes_contents(buf: bytes::Bytes) -> Seq<u8>;

/// The bytes that a growable buffer holds, first to last: the slice that
/// it dereferences to.
pub uninterp spec fn bytes_mut_contents(buf: bytes::BytesMut) -> Seq<u8>;

/// `BytesMut::from(&[u8])`: a fresh buffer that holds a copy of the slice.
#[verifier::external_body]
pub(crate) fn bytes_mut_from_slice(src: &[u8]) -> (buf: bytes::BytesMut)
    ensures
        bytes_mut_contents(buf) == src@,
{
    bytes::BytesMut::from(src)
}

/// `Bytes::from(Vec<u8>)`: the buffer takes the vector's bytes over, unchanged.
#[verifier::external_body]
pub(crate) fn bytes_from_vec(bytes: Vec<u8>) -> (buf: bytes::Bytes)
    ensures
        bytes_contents(buf) == bytes@,
{
    bytes::Bytes::from(bytes)
}

/// `Vec::<u8>::from(Bytes)`: the vector holds the buffer's bytes, unchanged.
#[verifier::external_body]
pub(crate) fn vec_from_bytes(buf: bytes::Bytes) -> (bytes: Vec<u8>)
    ensures
        bytes@ == bytes_contents(buf),
{
    Vec::from(buf)
}

} // verus!
