//! Bitcoin key material: compressed public keys, the secret keys they
//! come from, and receiving addresses.

use vstd::prelude::*;

use crate::encoding::{hex_decode, hex_decoded, hex_of, hex_valid, to_hex};
use crate::types::{bytes_eq, bytes_to_vec};

verus! {

/// Whether 32 bytes are a valid secp256k1 secret key (nonzero and
/// below the curve order). Names the success of
/// `secp256k1::SecretKey::from_slice`, which depends on the bytes
/// alone.
pub uninterp spec fn secret_key_valid(key: Seq<u8>) -> bool;

/// The compressed 33-byte serialization of the secp256k1 public key
/// belonging to a secret key. Names the result of
/// `secp256k1::PublicKey::from_secret_key` followed by `serialize`,
/// which depends on the secret key alone.
pub uninterp spec fn pubkey_of(key: Seq<u8>) -> Seq<u8>;

/// Whether 33 bytes are the compressed serialization of a point on the
/// secp256k1 curve. Names the success of
/// `secp256k1::PublicKey::from_slice`, which depends on the bytes
/// alone.
pub uninterp spec fn pubkey_valid(key: Seq<u8>) -> bool;

/// Relies on `secp256k1::PublicKey::from_slice`: succeeds exactly on
/// serializations of curve points, a function of the bytes alone.
#[verifier::external_body]
pub(crate) fn secp_pubkey_parse_check(key: &[u8; 33]) -> (r: bool)
    ensures
        r <==> pubkey_valid(key@),
{
    bitcoin::secp256k1::PublicKey::from_slice(key).is_ok()
}

/// A secp256k1 secret key, held as its 32 bytes.
#[derive(Clone, Copy, Debug)]
pub struct SecretKey {
    pub bytes: [u8; 32],
}

impl View for SecretKey {
    type V = Seq<u8>;

    open spec fn view(&self) -> Seq<u8> {
        self.bytes@
    }
}

impl SecretKey {
    /// Accepts exactly the byte strings that are valid secp256k1
    /// secret keys.
    pub fn from_bytes(bytes: [u8; 32]) -> (r: Option<SecretKey>)
        ensures
            r is Some <==> secret_key_valid(bytes@),
            r matches Some(k) ==> k@ == bytes@,
    {
        if secp_secret_key_check(&bytes) {
            Some(SecretKey { bytes })
        } else {
            None
        }
    }
}

impl PartialEq for SecretKey {
    fn eq(&self, other: &SecretKey) -> (r: bool) {
        bytes_eq(&self.bytes, &other.bytes)
    }
}

impl vstd::std_specs::cmp::PartialEqSpecImpl for SecretKey {
    open spec fn obeys_eq_spec() -> bool {
        true
    }

    open spec fn eq_spec(&self, other: &SecretKey) -> bool {
        self@ == other@
    }
}

/// Relies on `secp256k1::SecretKey::from_slice`: succeeds exactly on
/// valid secret keys, a function of the bytes alone.
#[verifier::external_body]
pub(crate) fn secp_secret_key_check(key: &[u8; 32]) -> (r: bool)
    ensures
        r <==> secret_key_valid(key@),
{
    bitcoin::secp256k1::SecretKey::from_slice(key).is_ok()
}

/// Relies on `secp256k1::SecretKey::from_slice` and
/// `secp256k1::PublicKey::from_secret_key`: succeeds exactly on valid
/// secret keys and returns the compressed serialization of the derived
/// public key, both functions of the bytes alone. A serialization
/// produced this way parses back through
/// `secp256k1::PublicKey::from_slice`.
#[verifier::external_body]
fn secp_pubkey_from_secret(key: &[u8; 32]) -> (r: Option<[u8; 33]>)
    ensures
        r is Some <==> secret_key_valid(key@),
        r matches Some(pk) ==> pk@ == pubkey_of(key@) && pubkey_of(key@).len() == 33
            && pubkey_valid(pk@),
{
    match bitcoin::secp256k1::SecretKey::from_slice(key) {
        Ok(sk) => {
            let secp = bitcoin::secp256k1::Secp256k1::new();
            Some(bitcoin::secp256k1::PublicKey::from_secret_key(&secp, &sk).serialize())
        },
        Err(_) => None,
    }
}

/// A compressed secp256k1 public key: the identity a party uses on a
/// Bitcoin ledger.
#[derive(Clone, Copy, Debug)]
pub struct PublicKey {
    pub bytes: [u8; 33],
}

impl View for PublicKey {
    type V = Seq<u8>;

    open spec fn view(&self) -> Seq<u8> {
        self.bytes@
    }
}

impl PublicKey {
    /// The public key belonging to a secret key, or `None` when the
    /// bytes are not a valid secret key. A derived key is always a
    /// valid curve point.
    pub fn from_secret_key(secret_key: &SecretKey) -> (r: Option<PublicKey>)
        ensures
            r is Some <==> secret_key_valid(secret_key@),
            r matches Some(pk) ==> pk@ == pubkey_of(secret_key@) && pubkey_valid(pk@),
    {
        match secp_pubkey_from_secret(&secret_key.bytes) {
            Some(bytes) => Some(PublicKey { bytes }),
            None => None,
        }
    }

    /// Carries 33 bytes as given, without a curve check: for
    /// identities whose validity the ledger itself enforces. Parsing
    /// text from outside goes through `from_hex_str`, which does
    /// check.
    pub fn from_bytes(bytes: [u8; 33]) -> (r: PublicKey)
        ensures
            r@ == bytes@,
    {
        PublicKey { bytes }
    }

    /// The 33 bytes of the compressed serialization.
    pub fn to_bytes(&self) -> (r: Vec<u8>)
        ensures
            r@ == self@,
    {
        bytes_to_vec(&self.bytes)
    }

    /// The lowercase hexadecimal text of the compressed serialization,
    /// as the key is written on the wire.
    pub fn to_hex_string(&self) -> (r: String)
        ensures
            r@ == hex_of(self@),
    {
        to_hex(&self.bytes)
    }

    /// Parses the hexadecimal text form: exactly 66 hexadecimal
    /// digits encoding a point on the curve. Text that decodes to
    /// anything but a curve point is refused.
    pub fn from_hex_str(s: &str) -> (r: Option<PublicKey>)
        ensures
            r is Some <==> hex_valid(s@) && s@.len() == 66 && pubkey_valid(hex_decoded(s@)),
            r matches Some(pk) ==> pk@ == hex_decoded(s@),
    {
        match hex_decode(s) {
            Some(bytes) => {
                if bytes.len() != 33 {
                    proof {
                        crate::encoding::lemma_hex_decoded_len(s@);
                    }
                    return None;
                }
                let mut arr: [u8; 33] = [0; 33];
                let mut i: usize = 0;
                while i < 33
                    invariant
                        i <= 33,
                        bytes@.len() == 33,
                        forall|j: int| 0 <= j < i ==> arr@[j] == bytes@[j],
                    decreases 33 - i,
                {
                    arr[i] = bytes[i];
                    i = i + 1;
                }
                assert(arr@ =~= bytes@);
                proof {
                    crate::encoding::lemma_hex_decoded_len(s@);
                }
                if !secp_pubkey_parse_check(&arr) {
                    return None;
                }
                Some(PublicKey { bytes: arr })
            },
            None => None,
        }
    }
}

impl PartialEq for PublicKey {
    fn eq(&self, other: &PublicKey) -> (r: bool) {
        bytes_eq(&self.bytes, &other.bytes)
    }
}

impl vstd::std_specs::cmp::PartialEqSpecImpl for PublicKey {
    open spec fn obeys_eq_spec() -> bool {
        true
    }

    open spec fn eq_spec(&self, other: &PublicKey) -> bool {
        self@ == other@
    }
}

/// A Bitcoin receiving address in its text form, as a wallet hands it
/// out.
#[derive(Clone, Debug)]
pub struct Address {
    pub text: String,
}

impl Address {
    pub fn new(text: String) -> (r: Address)
        ensures
            r.text@ == text@,
    {
        Address { text }
    }

    pub fn as_text(&self) -> (r: &str)
        ensures
            r@ == self.text@,
    {
        self.text.as_str()
    }
}

} // verus!
