//! Byte buffers of the `bytes` crate, as the conversion layer sees them.
//!
//! Verus cannot look inside a `Bytes` or a `BytesMut`. What such a buffer
//! holds is therefore given a name, and each call into the `bytes` crate
//! that the library makes is wrapped in a function whose contract speaks of
//! that name. None of these contracts is proved: they restate what the
//! `bytes` crate documents.
use bytes::{Bytes, BytesMut};
use vstd::prelude::*;

verus! {

#[verifier::external_type_specification]
#[verifier::external_body]
pub struct ExBytes(bytes::Bytes);

#[verifier::external_type_specification]
#[verifier::external_body]
pub struct ExBytesMut(bytes::BytesMut);

/// The bytes that a buffer holds, in order.
pub uninterp spec fn octets(buffer: Bytes) -> Seq<u8>;

/// The bytes gathered so far in a growing buffer, in order.
pub uninterp spec fn gathered(buffer: BytesMut) -> Seq<u8>;

/// `Bytes::from(Vec<u8>)`: the buffer holds the bytes of the vector, in the
/// same order.
#[verifier::external_body]
pub(crate) fn bytes_from_vec(data: Vec<u8>) -> (buffer: Bytes)
    ensures
        octets(buffer) == data@,
{
    Bytes::from(data)
}

/// `Bytes::len`: the number of bytes that the buffer holds.
#[verifier::external_body]
pub(crate) fn bytes_len(buffer: &Bytes) -> (len: usize)
    ensures
        len == octets(*buffer).len(),
{
    buffer.len()
}

/// `Bytes::as_ref`: the slice it lends holds the bytes of the buffer.
#[verifier::external_body]
pub(crate) fn bytes_slice(buffer: &Bytes) -> (slice: &[u8])
    ensures
        slice@ == octets(*buffer),
{
    buffer.as_ref()
}

/// `BytesMut::new`: a growing buffer with nothing gathered yet.
#[verifier::external_body]
pub(crate) fn start_gathering() -> (buffer: BytesMut)
    ensures
        gathered(buffer) == Seq::<u8>::empty(),
{
    BytesMut::new()
}

/// `BytesMut::extend_from_slice`: the given bytes are appended to what was
/// gathered before. The crate panics where the new length overflows `usize`,
/// so that case is excluded.
#[verifier::external_body]
pub(crate) fn gather(buffer: &mut BytesMut, more: &[u8])
    requires
        gathered(*old(buffer)).len() + more@.len() <= usize::MAX,
    ensures
        gathered(*final(buffer)) == gathered(*old(buffer)) + more@,
{
    buffer.extend_from_slice(more)
}

/// `BytesMut::freeze`: the finished buffer holds exactly what was gathered.
#[verifier::external_body]
pub(crate) fn finish_gathering(buffer: BytesMut) -> (frozen: Bytes)
    ensures
        octets(frozen) == gathered(buffer),
{
    buffer.freeze()
}

} // verus!
