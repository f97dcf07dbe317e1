//! The byte buffer that the connection core hands around: `bytes::Bytes`.
//!
//! The buffer is opaque to the verifier. Its contents are named by
//! [`bytes_seq`], and each operation the core needs is a thin wrapper whose
//! contract is taken on trust from the `bytes` crate.

use vstd::prelude::*;
use bytes::Bytes;

verus! {

/// `bytes::Bytes`, a cheaply cloneable slice of bytes, declared so that it
/// can stand in fields and signatures. Nothing inside it is visible.
#[verifier::external_type_specification]
#[verifier::external_body]
pub struct ExBytes(bytes::Bytes);

/// The bytes that a buffer holds, first to last.
pub uninterp spec fn bytes_seq(b: Bytes) -> Seq<u8>;

/// `Bytes::new`: a buffer that holds no bytes.
#[verifier::external_body]
pub(crate) fn bytes_new() -> (b: Bytes)
    ensures
        bytes_seq(b) == Seq::<u8>::empty(),
{
    Bytes::new()
}

/// `Bytes::len`: the number of bytes in the buffer.
#[verifier::external_body]
pub(crate) fn bytes_len(b: &Bytes) -> (n: usize)
    ensures
        n == bytes_seq(*b).len(),
{
    b.len()
}

/// `Bytes::split_to`: cuts the buffer at `at`. The first `at` bytes are
/// returned and the buffer keeps the rest. The crate panics when `at` is past
/// the end, so that is excluded.
#[verifier::external_body]
pub(crate) fn bytes_split_to(b: &mut Bytes, at: usize) -> (head: Bytes)
    requires
        at <= bytes_seq(*old(b)).len(),
    ensures
        bytes_seq(head) == bytes_seq(*old(b)).subrange(0, at as int),
        bytes_seq(*final(b)) == bytes_seq(*old(b)).subrange(
            at as int,
            bytes_seq(*old(b)).len() as int,
        ),
{
    b.split_to(at)
}

} // verus!
