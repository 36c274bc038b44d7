//! Byte encodings of wire codes and the 32-bit digest taken over them.

use vstd::prelude::*;

verus! {

/// Offset basis of the 32-bit Fowler-Noll-Vo hash.
pub const FNV_BASIS: u32 = 0x811c_9dc5;

/// Prime of the 32-bit Fowler-Noll-Vo hash.
pub const FNV_PRIME: u32 = 0x0100_0193;

/// Little-endian encoding of an 8-bit wire code: the code itself.
pub open spec fn le_bytes_u8(code: u8) -> Seq<u8> {
    seq![code]
}

/// Little-endian encoding of a 16-bit wire code: low byte first.
pub open spec fn le_bytes_u16(code: u16) -> Seq<u8> {
    seq![(code % 256) as u8, (code / 256) as u8]
}

/// Encodes an 8-bit wire code.
pub fn encode_u8(code: u8) -> (bytes: [u8; 1])
    ensures
        bytes@ == le_bytes_u8(code),
{
    let bytes = [code];
    assert(bytes@ =~= le_bytes_u8(code));
    bytes
}

/// Encodes a 16-bit wire code, low byte first.
pub fn encode_u16(code: u16) -> (bytes: [u8; 2])
    ensures
        bytes@ == le_bytes_u16(code),
{
    let bytes = [(code % 256) as u8, (code / 256) as u8];
    assert(bytes@ =~= le_bytes_u16(code));
    bytes
}

/// One round of the hash: the byte is folded into the state by exclusive
/// or, and the result is multiplied by the prime modulo 2^32.
pub open spec fn fnv_round(state: u32, byte: u8) -> u32 {
    (((state ^ (byte as u32)) * FNV_PRIME) % 0x1_0000_0000) as u32
}

/// The state after the rounds for each byte of `bytes`, first byte first.
pub open spec fn fnv_fold(state: u32, bytes: Seq<u8>) -> u32
    decreases bytes.len(),
{
    if bytes.len() == 0 {
        state
    } else {
        fnv_fold(fnv_round(state, bytes[0]), bytes.drop_first())
    }
}

/// The 32-bit Fowler-Noll-Vo digest of a byte string.
pub open spec fn fnv_digest(bytes: Seq<u8>) -> u32 {
    fnv_fold(FNV_BASIS, bytes)
}

/// Digest of `bytes` as computed by `hash32::FnvHasher`: a hasher made by
/// `Default::default` is fed the bytes through `hash32::Hasher::write`, and
/// `hash32::Hasher::finish` gives the result.
///
/// Trusted, not proved: the hasher starts from the offset basis, `write`
/// performs one round per byte in order (exclusive or, then a wrapping
/// multiplication by the prime), and `finish` hands the state out unchanged.
#[verifier::external_body]
pub(crate) fn fnv_hash(bytes: &[u8]) -> (digest: u32)
    ensures
        digest == fnv_digest(bytes@),
{
    let mut state = hash32::FnvHasher::default();
    hash32::Hasher::write(&mut state, bytes);
    hash32::Hasher::finish(&state)
}

} // verus!
