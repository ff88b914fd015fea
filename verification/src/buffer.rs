//! Payload buffers. A payload travels as a `bytes::Bytes`, which Verus cannot
//! look into: this module names what such a buffer holds and states, without
//! proof, what the handful of its operations used by the crate do to it.

use bytes::Buf;
use bytes::Bytes;
use vstd::prelude::*;

verus! {

/// `bytes::Bytes`, a cheaply shared run of bytes. What it holds is known
/// only as [`contents`].
#[verifier::external_type_specification]
#[verifier::external_body]
pub struct ExBytes(bytes::Bytes);

/// The bytes that a buffer holds, first to last.
pub uninterp spec fn contents(b: Bytes) -> Seq<u8>;

/// The number that two bytes spell in little-endian order.
pub open spec fn u16_le(lo: u8, hi: u8) -> int {
    lo as int + 256 * (hi as int)
}

/// `Bytes::from(Vec<u8>)`: the buffer holds exactly the vector's bytes.
#[verifier::external_body]
pub(crate) fn from_vec(v: Vec<u8>) -> (b: Bytes)
    ensures
        contents(b) == v@,
{
    Bytes::from(v)
}

/// `Bytes::len`: the number of bytes held.
#[verifier::external_body]
pub(crate) fn len(b: &Bytes) -> (n: usize)
    ensures
        n == contents(*b).len(),
{
    b.len()
}

/// `Bytes::is_empty`: whether no byte is held.
#[verifier::external_body]
pub(crate) fn is_empty(b: &Bytes) -> (r: bool)
    ensures
        r == (contents(*b).len() == 0),
{
    b.is_empty()
}

/// `Bytes::split_to`: hands out the first `at` bytes and keeps the rest.
/// The call panics when `at` is past the end, which `requires` rules out.
#[verifier::external_body]
pub(crate) fn split_to(b: &mut Bytes, at: usize) -> (head: Bytes)
    requires
        at <= contents(*old(b)).len(),
    ensures
        contents(head) == contents(*old(b)).subrange(0, at as int),
        contents(*final(b)) == contents(*old(b)).subrange(
            at as int,
            contents(*old(b)).len() as int,
        ),
{
    b.split_to(at)
}

/// Indexing a `Bytes` through its `Deref` to a slice: the byte at `i`.
/// Indexing past the end panics, which `requires` rules out.
#[verifier::external_body]
pub(crate) fn byte_at(b: &Bytes, i: usize) -> (x: u8)
    requires
        i < contents(*b).len(),
    ensures
        x == contents(*b)[i as int],
{
    b[i]
}

/// `Buf::get_u16_le` on a `Bytes`: reads the first two bytes as a
/// little-endian number and advances past them. The call panics on fewer than
/// two bytes, which `requires` rules out.
#[verifier::external_body]
pub(crate) fn get_u16_le(b: &mut Bytes) -> (x: u16)
    requires
        contents(*old(b)).len() >= 2,
    ensures
        x == u16_le(contents(*old(b))[0], contents(*old(b))[1]),
        contents(*final(b)) == contents(*old(b)).subrange(2, contents(*old(b)).len() as int),
{
    b.get_u16_le()
}

/// The by-value iterator of `Bytes`, collected: the bytes held, in order.
#[verifier::external_body]
pub(crate) fn into_vec(b: Bytes) -> (v: Vec<u8>)
    ensures
        v@ == contents(b),
{
    b.into_iter().collect()
}

} // verus!
