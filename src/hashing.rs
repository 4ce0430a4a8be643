//! The content hash used throughout the protocol, and the digests built on it.
use vstd::prelude::*;
use crate::bytes::append_bytes;

verus! {

/// The Keccak-256 digest of `data`.
pub uninterp spec fn keccak256_of(data: Seq<u8>) -> Seq<u8>;

/// Relies on `near_sdk::env::keccak256_array`: the Keccak-256 digest of the
/// bytes, which depends on the bytes alone.
#[verifier::external_body]
pub(crate) fn keccak256(data: &[u8]) -> (r: [u8; 32])
    ensures
        r@ == keccak256_of(data@),
{
    near_sdk::env::keccak256_array(data)
}

/// The hashlock that a secret opens: the digest of its 32 bytes.
pub open spec fn secret_hash_of(secret: Seq<u8>) -> Seq<u8> {
    keccak256_of(secret)
}

/// Computes the hashlock of a secret.
pub fn hash_secret(secret: &[u8; 32]) -> (r: [u8; 32])
    ensures
        r@ == secret_hash_of(secret@),
{
    keccak256(secret.as_slice())
}

/// Whether `secret` opens `hashlock`.
pub fn validate_secret(secret: &[u8; 32], hashlock: &[u8; 32]) -> (r: bool)
    ensures
        r == (secret_hash_of(secret@) == hashlock@),
{
    let h = hash_secret(secret);
    crate::bytes::bytes_eq(h.as_slice(), hashlock.as_slice())
}

/// The digest of two 32-byte values written one after the other.
pub open spec fn pair_hash_of(left: Seq<u8>, right: Seq<u8>) -> Seq<u8> {
    keccak256_of(left + right)
}

/// Hashes the concatenation of two 32-byte values.
pub fn hash_pair(left: &[u8; 32], right: &[u8; 32]) -> (r: [u8; 32])
    ensures
        r@ == pair_hash_of(left@, right@),
{
    let mut data: Vec<u8> = Vec::new();
    append_bytes(&mut data, left.as_slice());
    append_bytes(&mut data, right.as_slice());
    keccak256(data.as_slice())
}

/// The storage key of the Merkle validation record of one order under one root.
pub open spec fn validation_key_of(order_hash: Seq<u8>, root: Seq<u8>) -> Seq<u8> {
    pair_hash_of(order_hash, root)
}

/// Computes the key under which the validation record of `order_hash` and
/// `root_shortened` is stored.
pub fn create_validation_key(order_hash: &[u8; 32], root_shortened: &[u8; 32]) -> (r: [u8; 32])
    ensures
        r@ == validation_key_of(order_hash@, root_shortened@),
{
    hash_pair(order_hash, root_shortened)
}

} // verus!
