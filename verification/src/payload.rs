//! Chunks of terminal input and output, held as `bytes::Bytes`.
use bytes::Bytes;
use vstd::prelude::*;

verus! {

/// `bytes::Bytes`, an immutable buffer of bytes. The library hands such buffers
/// on and never looks inside them.
#[verifier::external_type_specification]
#[verifier::external_body]
pub struct ExBytes(Bytes);

/// The bytes that a buffer holds, in order.
pub uninterp spec fn contents(data: Bytes) -> Seq<u8>;

/// `Bytes::copy_from_slice` makes a new buffer that holds the bytes of the
/// slice, all of them and in their order.
pub assume_specification[ Bytes::copy_from_slice ](data: &[u8]) -> (buffer: Bytes)
    ensures
        contents(buffer) == data@,
;

/// A buffer with the first `read` bytes of `buf`: what one read call filled in.
pub fn received(buf: &[u8], read: usize) -> (data: Bytes)
    requires
        read <= buf@.len(),
    ensures
        contents(data) == buf@.take(read as int),
{
    Bytes::copy_from_slice(vstd::slice::slice_subrange(buf, 0, read))
}

} // verus!
