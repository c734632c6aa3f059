//! The alloy primitives that the decoders use: addresses, fixed 32-byte
//! values and the `bytes` crate's growable buffer, each with a name for the
//! bytes it holds and a contract for the operations called on it.
use alloy::primitives::bytes::Buf;
use alloy::primitives::bytes::BytesMut;
use alloy::primitives::Address;
use alloy::primitives::FixedBytes;
use vstd::prelude::*;

verus! {

/// alloy's 20-byte account address.
#[verifier::external_type_specification]
#[verifier::external_body]
pub struct ExAddress(Address);

/// alloy's fixed-size byte array.
#[verifier::external_type_specification]
#[verifier::external_body]
#[verifier::reject_recursive_types(N)]
pub struct ExFixedBytes<const N: usize>(FixedBytes<N>);

/// The `bytes` crate's mutable byte buffer.
#[verifier::external_type_specification]
#[verifier::external_body]
pub struct ExBytesMut(BytesMut);

/// The 20 bytes that an address holds, in order.
pub uninterp spec fn address_bytes(a: Address) -> Seq<u8>;

/// The 32 bytes that a `FixedBytes<32>` holds, in order.
pub uninterp spec fn b256_bytes(b: FixedBytes<32>) -> Seq<u8>;

/// The bytes that a buffer holds, from its read position to its end.
pub uninterp spec fn buffer_bytes(b: BytesMut) -> Seq<u8>;

/// `Address::from_slice`: copies a 20-byte slice into an address (it panics on
/// any other length, which `requires` rules out).
#[verifier::external_body]
pub fn address_from_slice(src: &[u8]) -> (a: Address)
    requires
        src@.len() == 20,
    ensures
        address_bytes(a) == src@,
{
    Address::from_slice(src)
}

/// `PartialEq::eq` on addresses, which `derive` writes as the equality of the
/// wrapped byte arrays.
#[verifier::external_body]
pub fn address_eq(a: &Address, b: &Address) -> (r: bool)
    ensures
        r == (address_bytes(*a) == address_bytes(*b)),
{
    a.eq(b)
}

/// `FixedBytes::<32>::from_slice`: copies a 32-byte slice (it panics on any
/// other length, which `requires` rules out).
#[verifier::external_body]
pub fn b256_from_slice(src: &[u8]) -> (b: FixedBytes<32>)
    requires
        src@.len() == 32,
    ensures
        b256_bytes(b) == src@,
{
    FixedBytes::<32>::from_slice(src)
}

/// `BytesMut::from(&[u8])`: a new buffer holding a copy of the slice.
#[verifier::external_body]
pub fn buffer_from_slice(src: &[u8]) -> (b: BytesMut)
    ensures
        buffer_bytes(b) == src@,
{
    BytesMut::from(src)
}

/// `Buf::advance` on a `BytesMut`: drops the first `cnt` bytes (it panics when
/// fewer remain, which `requires` rules out).
#[verifier::external_body]
pub fn buffer_advance(b: &mut BytesMut, cnt: usize)
    requires
        cnt <= buffer_bytes(*old(b)).len(),
    ensures
        buffer_bytes(*final(b)) == buffer_bytes(*old(b)).skip(cnt as int),
{
    b.advance(cnt)
}

/// `Buf::get_u64` on a `BytesMut`: reads the first 8 bytes as a big-endian
/// number and drops them (it panics when fewer remain).
#[verifier::external_body]
pub fn buffer_get_u64(b: &mut BytesMut) -> (v: u64)
    requires
        8 <= buffer_bytes(*old(b)).len(),
    ensures
        v == crate::be::be_value(buffer_bytes(*old(b)).take(8)),
        buffer_bytes(*final(b)) == buffer_bytes(*old(b)).skip(8),
{
    b.get_u64()
}

/// `Buf::get_u32` on a `BytesMut`: reads the first 4 bytes as a big-endian
/// number and drops them (it panics when fewer remain).
#[verifier::external_body]
pub fn buffer_get_u32(b: &mut BytesMut) -> (v: u32)
    requires
        4 <= buffer_bytes(*old(b)).len(),
    ensures
        v == crate::be::be_value(buffer_bytes(*old(b)).take(4)),
        buffer_bytes(*final(b)) == buffer_bytes(*old(b)).skip(4),
{
    b.get_u32()
}

/// `BytesMut::split_to`: hands out the first `at` bytes as a buffer of their
/// own and keeps the rest (it panics when `at` exceeds the length).
#[verifier::external_body]
pub fn buffer_split_to(b: &mut BytesMut, at: usize) -> (front: BytesMut)
    requires
        at <= buffer_bytes(*old(b)).len(),
    ensures
        buffer_bytes(front) == buffer_bytes(*old(b)).take(at as int),
        buffer_bytes(*final(b)) == buffer_bytes(*old(b)).skip(at as int),
{
    b.split_to(at)
}

/// `BytesMut::freeze`, then the frozen bytes copied into a vector.
#[verifier::external_body]
pub fn buffer_freeze_to_vec(b: BytesMut) -> (v: Vec<u8>)
    ensures
        v@ == buffer_bytes(b),
{
    b.freeze().to_vec()
}

} // verus!
