//! Stored byte strings. The server keeps the value of each data identifier
//! and the pending seed as `bytes::Bytes`; what a value holds is spoken of
//! through `bytes_contents`.

use bytes::Bytes;
use vstd::prelude::*;

verus! {

/// An immutable, cheaply cloned byte string of the `bytes` crate.
#[verifier::external_type_specification]
#[verifier::external_body]
pub struct ExBytes(bytes::Bytes);

/// The bytes a `Bytes` value holds, in order.
pub uninterp spec fn bytes_contents(b: Bytes) -> Seq<u8>;

/// Calls `BytesMut::from(&[u8])` and `BytesMut::freeze`: the result holds a
/// copy of the slice.
#[verifier::external_body]
pub(crate) fn bytes_from_slice(data: &[u8]) -> (b: Bytes)
    ensures
        bytes_contents(b) == data@,
{
    bytes::BytesMut::from(data).freeze()
}

/// Calls `Bytes::from(Vec<u8>)`: the result holds the bytes of the vector.
#[verifier::external_body]
pub(crate) fn bytes_from_vec(data: Vec<u8>) -> (b: Bytes)
    ensures
        bytes_contents(b) == data@,
{
    Bytes::from(data)
}

/// Calls `Bytes::clone`: the clone holds the same bytes.
#[verifier::external_body]
pub(crate) fn bytes_clone(b: &Bytes) -> (c: Bytes)
    ensures
        bytes_contents(c) == bytes_contents(*b),
{
    b.clone()
}

/// Calls `AsRef<[u8]>::as_ref` of `Bytes`: the slice is what the value holds.
#[verifier::external_body]
pub(crate) fn bytes_as_slice(b: &Bytes) -> (s: &[u8])
    ensures
        s@ == bytes_contents(*b),
{
    b.as_ref()
}

} // verus!
