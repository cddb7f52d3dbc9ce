//! The byte buffers of the `bytes` crate, as this crate uses them.

use vstd::prelude::*;

verus! {

/// `bytes::Bytes`, carried through as an opaque buffer.
#[verifier::external_type_specification]
#[verifier::external_body]
pub struct ExBytes(::bytes::Bytes);

/// The bytes that a `bytes::Bytes` buffer holds, in order.
pub uninterp spec fn bytes_view(b: ::bytes::Bytes) -> Seq<u8>;

/// Calls `Bytes::copy_from_slice`. Claimed: the new buffer holds a copy of
/// `data`.
#[verifier::external_body]
pub(crate) fn bytes_copy_from_slice(data: &[u8]) -> (r: ::bytes::Bytes)
    ensures
        bytes_view(r) == data@,
{
    ::bytes::Bytes::copy_from_slice(data)
}

/// Calls `Bytes::len`. Claimed: the number of bytes held.
#[verifier::external_body]
pub(crate) fn bytes_len(b: &::bytes::Bytes) -> (r: usize)
    ensures
        r == bytes_view(*b).len(),
{
    b.len()
}

/// Calls `Bytes::is_empty`. Claimed: whether no byte is held.
#[verifier::external_body]
pub(crate) fn bytes_is_empty(b: &::bytes::Bytes) -> (r: bool)
    ensures
        r == (bytes_view(*b).len() == 0),
{
    b.is_empty()
}

/// Calls `Bytes::clone`. Claimed: the clone holds the same bytes.
#[verifier::external_body]
pub(crate) fn bytes_clone(b: &::bytes::Bytes) -> (r: ::bytes::Bytes)
    ensures
        bytes_view(r) == bytes_view(*b),
{
    b.clone()
}

} // verus!
