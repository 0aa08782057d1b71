//! The two keyed and unkeyed digests the engine relies on. Their
//! values are functions of their input alone; the engine names the
//! results and never restates the algorithms.

use bitcoin::hashes::HashEngine;
use vstd::prelude::*;

verus! {

/// The SHA-256 digest of a byte sequence, 32 bytes long.
pub uninterp spec fn sha256_of(data: Seq<u8>) -> Seq<u8>;

/// The HMAC-SHA-512 of a message under a key, 64 bytes long.
pub uninterp spec fn hmac_sha512_of(key: Seq<u8>, data: Seq<u8>) -> Seq<u8>;

/// Relies on `bitcoin::hashes::sha256::Hash::hash`: a single SHA-256
/// pass over the input, a function of the input alone.
#[verifier::external_body]
pub fn sha256(data: &[u8]) -> (r: [u8; 32])
    ensures
        r@ == sha256_of(data@),
{
    let h = <bitcoin::hashes::sha256::Hash as bitcoin::hashes::Hash>::hash(data);
    <bitcoin::hashes::sha256::Hash as bitcoin::hashes::Hash>::to_byte_array(h)
}

/// Relies on `bitcoin::hashes::HmacEngine<sha512::Hash>`: HMAC-SHA-512
/// of the message under the key, a function of the two alone.
#[verifier::external_body]
pub fn hmac_sha512(key: &[u8], data: &[u8]) -> (r: Vec<u8>)
    ensures
        r@ == hmac_sha512_of(key@, data@),
        r@.len() == 64,
{
    let mut engine: bitcoin::hashes::HmacEngine<bitcoin::hashes::sha512::Hash> =
        bitcoin::hashes::HmacEngine::new(key);
    engine.input(data);
    let hmac = <bitcoin::hashes::Hmac<bitcoin::hashes::sha512::Hash> as bitcoin::hashes::Hash>::from_engine(
        engine,
    );
    <bitcoin::hashes::Hmac<bitcoin::hashes::sha512::Hash> as bitcoin::hashes::Hash>::to_byte_array(
        hmac,
    ).to_vec()
}

} // verus!
