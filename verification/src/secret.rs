//! The redeem preimage and its hash. The hash locks both HTLCs of a
//! swap; revealing the preimage in a redeem transaction lets the
//! counterparty claim the other leg.

use vstd::prelude::*;

use crate::digest::{sha256, sha256_of};
use crate::types::bytes_eq;

verus! {

/// A 32-byte redeem preimage, generated by the party who redeems
/// first.
#[derive(Clone, Copy, Debug)]
pub struct Secret {
    pub bytes: [u8; 32],
}

impl View for Secret {
    type V = Seq<u8>;

    open spec fn view(&self) -> Seq<u8> {
        self.bytes@
    }
}

impl Secret {
    pub fn from_bytes(bytes: [u8; 32]) -> (r: Secret)
        ensures
            r@ == bytes@,
    {
        Secret { bytes }
    }

    /// Accepts exactly 32 bytes; anything else is not a secret.
    pub fn from_vec(bytes: &Vec<u8>) -> (r: Option<Secret>)
        ensures
            r is Some <==> bytes@.len() == 32,
            r is Some ==> r->0@ == bytes@,
    {
        if bytes.len() != 32 {
            return None;
        }
        let mut arr: [u8; 32] = [0; 32];
        let mut i: usize = 0;
        while i < 32
            invariant
                i <= 32,
                bytes@.len() == 32,
                forall|j: int| 0 <= j < i ==> arr@[j] == bytes@[j],
            decreases 32 - i,
        {
            arr[i] = bytes[i];
            i = i + 1;
        }
        assert(arr@ =~= bytes@);
        Some(Secret { bytes: arr })
    }

    /// A fresh cryptographically random secret. Nothing is promised of
    /// the value; two calls may and should differ.
    pub fn generate() -> Secret {
        Secret { bytes: random_bytes_32() }
    }
}

impl PartialEq for Secret {
    fn eq(&self, other: &Secret) -> (r: bool) {
        bytes_eq(&self.bytes, &other.bytes)
    }
}

impl vstd::std_specs::cmp::PartialEqSpecImpl for Secret {
    open spec fn obeys_eq_spec() -> bool {
        true
    }

    open spec fn eq_spec(&self, other: &Secret) -> bool {
        self@ == other@
    }
}

/// Relies on `rand::random`: 32 bytes from the thread-local
/// cryptographic generator. The result depends on the generator's
/// state, so nothing is stated about it.
#[verifier::external_body]
pub(crate) fn random_bytes_32() -> [u8; 32] {
    rand::random()
}

/// The SHA-256 hash of a secret, shared between the parties before
/// funding.
#[derive(Clone, Copy, Debug)]
pub struct SecretHash {
    pub bytes: [u8; 32],
}

impl View for SecretHash {
    type V = Seq<u8>;

    open spec fn view(&self) -> Seq<u8> {
        self.bytes@
    }
}

impl SecretHash {
    /// The hash that locks both legs: a single SHA-256 pass over the
    /// secret.
    pub fn new(secret: &Secret) -> (r: SecretHash)
        ensures
            r@ == sha256_of(secret@),
    {
        SecretHash { bytes: sha256(&secret.bytes) }
    }

    pub fn from_bytes(bytes: [u8; 32]) -> (r: SecretHash)
        ensures
            r@ == bytes@,
    {
        SecretHash { bytes }
    }

    /// Whether a revealed secret hashes to this value. A redeem
    /// observation whose secret does not match is a protocol
    /// violation, not a valid redeem event.
    pub fn matches(&self, secret: &Secret) -> (r: bool)
        ensures
            r <==> self@ == sha256_of(secret@),
    {
        let h = sha256(&secret.bytes);
        bytes_eq(&self.bytes, &h)
    }
}

impl PartialEq for SecretHash {
    fn eq(&self, other: &SecretHash) -> (r: bool) {
        bytes_eq(&self.bytes, &other.bytes)
    }
}

impl vstd::std_specs::cmp::PartialEqSpecImpl for SecretHash {
    open spec fn obeys_eq_spec() -> bool {
        true
    }

    open spec fn eq_spec(&self, other: &SecretHash) -> bool {
        self@ == other@
    }
}

} // verus!
