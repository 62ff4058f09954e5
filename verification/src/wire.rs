//! Integers on the wire: the flashing protocol sends integer fields as the
//! in-memory bytes of the integer, in the byte order of the machine that
//! encodes them.  The conversions are made by `bytemuck`.
use vstd::bytes::{
    lemma_auto_spec_u32_to_from_le_bytes, lemma_auto_spec_u64_to_from_le_bytes,
    spec_u32_from_le_bytes, spec_u32_to_le_bytes, spec_u64_from_le_bytes, spec_u64_to_le_bytes,
};
use vstd::endian::{endianness, Endian};
use vstd::prelude::*;

verus! {

/// `bytes` reordered from the machine's byte order into little-endian order
/// (the identity on a little-endian machine, a reversal on a big-endian one).
pub open spec fn native_order(bytes: Seq<u8>) -> Seq<u8> {
    match endianness() {
        Endian::Little => bytes,
        Endian::Big => bytes.reverse(),
    }
}

/// The `u64` whose in-memory representation is `bytes`.
pub open spec fn native_u64(bytes: Seq<u8>) -> u64 {
    spec_u64_from_le_bytes(native_order(bytes))
}

/// The in-memory representation of `x`.
pub open spec fn native_u64_bytes(x: u64) -> Seq<u8> {
    native_order(spec_u64_to_le_bytes(x))
}

/// The `u32` whose in-memory representation is `bytes`.
pub open spec fn native_u32(bytes: Seq<u8>) -> u32 {
    spec_u32_from_le_bytes(native_order(bytes))
}

/// The in-memory representation of `x`.
pub open spec fn native_u32_bytes(x: u32) -> Seq<u8> {
    native_order(spec_u32_to_le_bytes(x))
}

/// `bytemuck::pod_read_unaligned::<u64>`: the `u64` whose in-memory bytes are
/// `bytes`.  The call panics unless exactly 8 bytes are given, which is
/// therefore required.
#[verifier::external_body]
pub(crate) fn pod_read_u64(bytes: &[u8]) -> (r: u64)
    requires
        bytes@.len() == 8,
    ensures
        r == native_u64(bytes@),
{
    bytemuck::pod_read_unaligned::<u64>(bytes)
}

/// `bytemuck::pod_read_unaligned::<u32>`: the `u32` whose in-memory bytes are
/// `bytes`.  The call panics unless exactly 4 bytes are given, which is
/// therefore required.
#[verifier::external_body]
pub(crate) fn pod_read_u32(bytes: &[u8]) -> (r: u32)
    requires
        bytes@.len() == 4,
    ensures
        r == native_u32(bytes@),
{
    bytemuck::pod_read_unaligned::<u32>(bytes)
}

/// `bytemuck::bytes_of::<u64>`: the in-memory bytes of `*x`.
#[verifier::external_body]
pub(crate) fn bytes_of_u64(x: &u64) -> (r: &[u8])
    ensures
        r@ == native_u64_bytes(*x),
{
    bytemuck::bytes_of(x)
}

/// `bytemuck::bytes_of::<u32>`: the in-memory bytes of `*x`.
#[verifier::external_body]
pub(crate) fn bytes_of_u32(x: &u32) -> (r: &[u8])
    ensures
        r@ == native_u32_bytes(*x),
{
    bytemuck::bytes_of(x)
}

/// Reordering into little-endian order and back is the identity.
pub proof fn lemma_native_order_involution(bytes: Seq<u8>)
    ensures
        native_order(native_order(bytes)) == bytes,
        native_order(bytes).len() == bytes.len(),
{
    match endianness() {
        Endian::Little => {},
        Endian::Big => {
            assert(bytes.reverse().reverse() =~= bytes);
        },
    }
}

/// Writing a `u64` to memory and reading it back gives the same `u64`, and
/// its representation has 8 bytes.
pub proof fn lemma_native_u64_roundtrip(x: u64)
    ensures
        native_u64_bytes(x).len() == 8,
        native_u64(native_u64_bytes(x)) == x,
{
    lemma_auto_spec_u64_to_from_le_bytes();
    lemma_native_order_involution(spec_u64_to_le_bytes(x));
}

/// Reading 8 bytes as a `u64` and writing it back gives the same bytes.
pub proof fn lemma_native_u64_bytes_roundtrip(bytes: Seq<u8>)
    requires
        bytes.len() == 8,
    ensures
        native_u64_bytes(native_u64(bytes)) == bytes,
{
    lemma_auto_spec_u64_to_from_le_bytes();
    lemma_native_order_involution(bytes);
}

/// Writing a `u32` to memory and reading it back gives the same `u32`, and
/// its representation has 4 bytes.
pub proof fn lemma_native_u32_roundtrip(x: u32)
    ensures
        native_u32_bytes(x).len() == 4,
        native_u32(native_u32_bytes(x)) == x,
{
    lemma_auto_spec_u32_to_from_le_bytes();
    lemma_native_order_involution(spec_u32_to_le_bytes(x));
}

/// Reading 4 bytes as a `u32` and writing it back gives the same bytes.
pub proof fn lemma_native_u32_bytes_roundtrip(bytes: Seq<u8>)
    requires
        bytes.len() == 4,
    ensures
        native_u32_bytes(native_u32(bytes)) == bytes,
{
    lemma_auto_spec_u32_to_from_le_bytes();
    lemma_native_order_involution(bytes);
}

} // verus!
