//! The byte buffer that the codec reads from and writes to.

use vstd::prelude::*;

verus! {

/// `bytes::BytesMut`, the buffer of the framed streams.
#[verifier::external_type_specification]
#[verifier::external_body]
pub struct ExBytesMut(bytes::BytesMut);

/// The bytes that a buffer holds, first to last.
pub uninterp spec fn buffered(buffer: bytes::BytesMut) -> Seq<u8>;

/// `BytesMut::new`: a buffer that holds nothing.
#[verifier::external_body]
pub(crate) fn buffer_new() -> (buffer: bytes::BytesMut)
    ensures
        buffered(buffer) == Seq::<u8>::empty(),
{
    bytes::BytesMut::new()
}

/// `BytesMut::len`: the number of bytes held.
#[verifier::external_body]
pub(crate) fn buffer_len(buffer: &bytes::BytesMut) -> (len: usize)
    ensures
        len == buffered(*buffer).len(),
{
    buffer.len()
}

/// The bytes held, borrowed through `Deref`.
#[verifier::external_body]
pub(crate) fn buffer_bytes(buffer: &bytes::BytesMut) -> (bytes: &[u8])
    ensures
        bytes@ == buffered(*buffer),
{
    &buffer[..]
}

/// `BytesMut::capacity`. How much room a buffer has is the allocator's
/// business: nothing is claimed of the number.
#[verifier::external_body]
pub(crate) fn buffer_capacity(buffer: &bytes::BytesMut) -> (capacity: usize) {
    buffer.capacity()
}

/// `Buf::advance`: drops the first `count` bytes. It panics when the buffer
/// holds fewer.
#[verifier::external_body]
pub(crate) fn buffer_advance(buffer: &mut bytes::BytesMut, count: usize)
    requires
        count <= buffered(*old(buffer)).len(),
    ensures
        buffered(*final(buffer)) == buffered(*old(buffer)).skip(count as int),
{
    bytes::Buf::advance(buffer, count)
}

/// `BytesMut::split_to`, copied out: hands out the first `count` bytes and
/// keeps the rest. It panics when the buffer holds fewer.
#[verifier::external_body]
pub(crate) fn buffer_take(buffer: &mut bytes::BytesMut, count: usize) -> (taken: Vec<u8>)
    requires
        count <= buffered(*old(buffer)).len(),
    ensures
        taken@ == buffered(*old(buffer)).take(count as int),
        buffered(*final(buffer)) == buffered(*old(buffer)).skip(count as int),
{
    buffer.split_to(count).to_vec()
}

/// `BytesMut::reserve`: makes room for `additional` more bytes and leaves the
/// contents alone. It panics when the new capacity overflows: the bytes held
/// and the bytes asked for must together stay within what a buffer can hold.
#[verifier::external_body]
pub(crate) fn buffer_reserve(buffer: &mut bytes::BytesMut, additional: usize)
    requires
        buffered(*old(buffer)).len() + additional <= isize::MAX,
    ensures
        buffered(*final(buffer)) == buffered(*old(buffer)),
{
    buffer.reserve(additional)
}

/// `BytesMut::extend_from_slice`: appends a copy of `bytes`. It reserves
/// first, and so panics when the new capacity overflows: the bytes held and
/// the bytes appended must together stay within what a buffer can hold.
#[verifier::external_body]
pub(crate) fn buffer_extend(buffer: &mut bytes::BytesMut, bytes: &[u8])
    requires
        buffered(*old(buffer)).len() + bytes@.len() <= isize::MAX,
    ensures
        buffered(*final(buffer)) == buffered(*old(buffer)) + bytes@,
{
    buffer.extend_from_slice(bytes)
}

} // verus!
