//! The byte buffer type that frames travel in.

use vstd::prelude::*;

verus! {

/// Declares `bytes::Bytes` so that frames can be handed over as the shared,
/// cheaply cloneable buffer the transport expects.
#[verifier::external_type_specification]
#[verifier::external_body]
pub struct ExBytes(bytes::Bytes);

/// The sequence of bytes that a `bytes::Bytes` buffer holds.
pub uninterp spec fn bytes_content(b: bytes::Bytes) -> Seq<u8>;

/// Calls `<bytes::Bytes as From<Vec<u8>>>::from`, which takes over the vector's
/// allocation; the buffer then holds exactly the vector's bytes, in order.
#[verifier::external_body]
pub(crate) fn bytes_from_vec(v: Vec<u8>) -> (b: bytes::Bytes)
    ensures
        bytes_content(b) == v@,
{
    bytes::Bytes::from(v)
}

} // verus!

verus! {

/// Calls `bytes::Bytes::copy_from_slice`, which copies `data` into a new
/// buffer; the buffer then holds exactly those bytes.
#[verifier::external_body]
pub(crate) fn bytes_copy_from_slice(data: &[u8]) -> (b: bytes::Bytes)
    ensures
        bytes_content(b) == data@,
{
    bytes::Bytes::copy_from_slice(data)
}

/// The contents of each buffer of `v`.
pub open spec fn contents_of(v: Seq<bytes::Bytes>) -> Seq<Seq<u8>> {
    v.map_values(|b: bytes::Bytes| bytes_content(b))
}

} // verus!
