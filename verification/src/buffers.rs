//! Immutable byte buffers of the `bytes` crate, as carried by packets and frames.

use vstd::prelude::*;

verus! {

/// The outside buffer type, carried through the library by value.
#[verifier::external_type_specification]
#[verifier::external_body]
pub struct ExBytes(bytes::Bytes);

/// The bytes that a buffer holds, in order.
pub uninterp spec fn bytes_contents(b: bytes::Bytes) -> Seq<u8>;

/// Calls `bytes::Bytes::copy_from_slice`, which allocates a new buffer and
/// copies `data` into it: the buffer then holds exactly the bytes of `data`.
#[verifier::external_body]
pub fn bytes_from_slice(data: &[u8]) -> (b: bytes::Bytes)
    ensures
        bytes_contents(b) == data@,
{
    bytes::Bytes::copy_from_slice(data)
}

/// Specifies `<bytes::Bytes as Clone>::clone`, which hands out another handle
/// on the same shared storage: the clone holds the same bytes as the buffer it was made from.
pub assume_specification[ <bytes::Bytes as Clone>::clone ](b: &bytes::Bytes) -> (c: bytes::Bytes)
    ensures
        bytes_contents(c) == bytes_contents(*b),
;

} // verus!
