//! Deterministic wallet key material. Everything a restarted process
//! needs is re-derivable from the 32-byte seed alone: the wallet's
//! name, its transient per-swap keys, its seed in WIF form, the BIP32
//! root key, and the wallet descriptors. No derived key is ever
//! persisted.

use vstd::prelude::*;
use vstd::string::StringExecFns;

use crate::bitcoin::{secret_key_valid, SecretKey};
use crate::digest::{hmac_sha512, hmac_sha512_of, sha256, sha256_of};
use crate::encoding::{hex_nopad, to_hex_nopad_u8};
use crate::ledger;
use crate::secret::random_bytes_32;
use crate::types::{be_bytes, bytes_to_vec, SwapId};

verus! {

/// The 32-byte master seed a wallet is built from.
#[derive(Clone, Copy, Debug)]
pub struct Seed {
    pub bytes: [u8; 32],
}

impl View for Seed {
    type V = Seq<u8>;

    open spec fn view(&self) -> Seq<u8> {
        self.bytes@
    }
}

impl Seed {
    pub fn from_bytes(bytes: [u8; 32]) -> (r: Seed)
        ensures
            r@ == bytes@,
    {
        Seed { bytes }
    }

    /// A fresh cryptographically random seed. Nothing is promised of
    /// the value; two calls may and should differ.
    pub fn random() -> Seed {
        Seed { bytes: random_bytes_32() }
    }
}

/// The text form of a WIF-encoded compressed private key: a function
/// of the key bytes and of whether the network is mainnet. Names the
/// result of `bitcoin::PrivateKey::to_wif`.
pub uninterp spec fn wif_of(key: Seq<u8>, mainnet: bool) -> Seq<char>;

/// Relies on `bitcoin::PrivateKey::to_wif`, on a compressed key:
/// succeeds exactly on valid secret keys, and the text depends on the
/// key bytes and the network kind alone.
#[verifier::external_body]
fn wif_encode(key: &[u8; 32], mainnet: bool) -> (r: Option<String>)
    ensures
        r is Some <==> secret_key_valid(key@),
        r matches Some(s) ==> s@ == wif_of(key@, mainnet),
{
    match bitcoin::secp256k1::SecretKey::from_slice(key) {
        Ok(sk) => {
            let network = if mainnet {
                bitcoin::NetworkKind::Main
            } else {
                bitcoin::NetworkKind::Test
            };
            Some(bitcoin::PrivateKey::new(sk, network).to_wif())
        },
        Err(_) => None,
    }
}

/// The base58 text form of a depth-zero BIP32 extended private key: a
/// function of the key, the chain code and the network kind. Names the
/// result of displaying a `bitcoin::bip32::Xpriv` master key.
pub uninterp spec fn xpriv_text_of(key: Seq<u8>, chain_code: Seq<u8>, mainnet: bool) -> Seq<char>;

/// Relies on `bitcoin::bip32::Xpriv`'s display: succeeds exactly on
/// valid secret keys, and the text of a master key (depth zero, child
/// number zero, no parent) depends on the key, the chain code and the
/// network kind alone.
#[verifier::external_body]
fn xpriv_encode(key: &[u8; 32], chain_code: &[u8; 32], mainnet: bool) -> (r: Option<String>)
    ensures
        r is Some <==> secret_key_valid(key@),
        r matches Some(s) ==> s@ == xpriv_text_of(key@, chain_code@, mainnet),
{
    let sk = match bitcoin::secp256k1::SecretKey::from_slice(key) {
        Ok(sk) => sk,
        Err(_) => return None,
    };
    let network = if mainnet { bitcoin::NetworkKind::Main } else { bitcoin::NetworkKind::Test };
    let xpriv = bitcoin::bip32::Xpriv {
        network,
        depth: 0,
        parent_fingerprint: Default::default(),
        child_number: bitcoin::bip32::ChildNumber::from_normal_idx(0).unwrap(),
        private_key: sk,
        chain_code: bitcoin::bip32::ChainCode::from(*chain_code),
    };
    Some(xpriv.to_string())
}

/// The domain-separation label mixed into every transient key.
pub open spec fn spec_transient_label() -> Seq<u8> {
    seq![
        84u8, 82u8, 65u8, 78u8, 83u8, 73u8, 69u8, 78u8, 84u8, 95u8, 75u8, 69u8, 89u8,
    ]
}

fn transient_label() -> (r: Vec<u8>)
    ensures
        r@ == spec_transient_label(),
{
    let mut r: Vec<u8> = Vec::new();
    r.push(84);
    r.push(82);
    r.push(65);
    r.push(78);
    r.push(83);
    r.push(73);
    r.push(69);
    r.push(78);
    r.push(84);
    r.push(95);
    r.push(75);
    r.push(69);
    r.push(89);
    proof {
        assert(r@ =~= spec_transient_label());
    }
    r
}

/// The bytes a transient key is derived from: one SHA-256 pass over
/// the seed, the swap id and the domain-separation label.
pub open spec fn spec_transient_key(seed: Seq<u8>, swap_id: nat) -> Seq<u8> {
    sha256_of(seed + be_bytes(swap_id, 16) + spec_transient_label())
}

/// The key used to derive a BIP32 root key from a seed.
pub open spec fn spec_root_label() -> Seq<u8> {
    seq![66u8, 105u8, 116u8, 99u8, 111u8, 105u8, 110u8, 32u8, 115u8, 101u8, 101u8, 100u8]
}

fn root_label() -> (r: Vec<u8>)
    ensures
        r@ == spec_root_label(),
{
    let mut r: Vec<u8> = Vec::new();
    r.push(66);
    r.push(105);
    r.push(116);
    r.push(99);
    r.push(111);
    r.push(105);
    r.push(110);
    r.push(32);
    r.push(115);
    r.push(101);
    r.push(101);
    r.push(100);
    proof {
        assert(r@ =~= spec_root_label());
    }
    r
}

/// The 64 bytes of root key material: HMAC-SHA-512 of the seed under
/// the fixed root derivation label, split below into a key and a
/// chain code.
pub open spec fn spec_root_key_material(seed: Seq<u8>) -> Seq<u8> {
    hmac_sha512_of(spec_root_label(), seed)
}

/// A depth-zero BIP32 extended private key, held as its parts.
#[derive(Clone, Copy, Debug)]
pub struct ExtendedPrivKey {
    pub network: ledger::Bitcoin,
    pub depth: u8,
    pub child_number: u32,
    pub private_key: [u8; 32],
    pub chain_code: [u8; 32],
}

impl ExtendedPrivKey {
    /// The key's standard base58 text form, or `None` when the derived
    /// key bytes are not a valid secret key.
    pub fn to_text(&self) -> (r: Option<String>)
        ensures
            r is Some <==> secret_key_valid(self.private_key@),
            r matches Some(s) ==> s@ == xpriv_text_of(
                self.private_key@,
                self.chain_code@,
                self.network is Mainnet,
            ),
    {
        xpriv_encode(&self.private_key, &self.chain_code, self.network.is_mainnet())
    }
}

/// The text a wallet is named by: a fixed prefix and the first four
/// bytes of the hash of the seed, each written in unpadded hexadecimal.
pub open spec fn spec_wallet_name(seed: Seq<u8>) -> Seq<char> {
    "nectar_"@ + hex_nopad(sha256_of(seed)[0] as nat) + hex_nopad(sha256_of(seed)[1] as nat)
        + hex_nopad(sha256_of(seed)[2] as nat) + hex_nopad(sha256_of(seed)[3] as nat)
}

/// The text of one wallet descriptor: the extended key and a
/// derivation path under a `wpkh` wrapper.
pub open spec fn spec_descriptor(xpriv: Seq<char>, path: Seq<char>) -> Seq<char> {
    "wpkh("@ + xpriv + path + ")"@
}

/// A wallet connected to the wrong chain. Fatal for the attempted
/// operation; no transaction is sent.
#[derive(Clone, Copy, Debug, PartialEq, Eq, Structural)]
pub struct NetworkMismatch {
    pub expected: ledger::Bitcoin,
    pub actual: ledger::Bitcoin,
}

/// Refuses to act across a network mismatch: any mutating wallet
/// operation first holds the connected network against the expected
/// one.
pub fn check_network(expected: ledger::Bitcoin, actual: ledger::Bitcoin) -> (r: Result<
    (),
    NetworkMismatch,
>)
    ensures
        r is Ok <==> expected == actual,
        r matches Err(e) ==> e.expected == expected && e.actual == actual,
{
    if expected == actual {
        Ok(())
    } else {
        Err(NetworkMismatch { expected, actual })
    }
}

/// What a wallet process reports about an existing wallet: whether a
/// deterministic seed was ever set on it.
#[derive(Clone, Copy, Debug, PartialEq, Eq, Structural)]
pub struct WalletInfo {
    pub hd_seed_set: bool,
}

/// The step wallet initialization must take next.
#[derive(Clone, Copy, Debug, PartialEq, Eq, Structural)]
pub enum InitAction {
    /// No wallet answers to the name: create it, then set the seed.
    CreateThenSetSeed,
    /// The wallet exists but carries no seed (an earlier set-seed call
    /// may have failed): set the seed.
    SetSeed,
    /// The wallet exists and carries a seed. A wallet of the same name
    /// is assumed to hold the same seed.
    Nothing,
}

/// Decides how to initialize the wallet from what the node reported:
/// `None` when no wallet answered, `Some` with its info otherwise.
pub fn wallet_init_decision(info: Option<WalletInfo>) -> (r: InitAction)
    ensures
        info is None ==> r == InitAction::CreateThenSetSeed,
        info matches Some(i) && !i.hd_seed_set ==> r == InitAction::SetSeed,
        info matches Some(i) && i.hd_seed_set ==> r == InitAction::Nothing,
{
    match info {
        None => InitAction::CreateThenSetSeed,
        Some(i) => {
            if i.hd_seed_set {
                InitAction::Nothing
            } else {
                InitAction::SetSeed
            }
        },
    }
}

/// The deterministic part of a wallet: its seed, the network it is
/// meant for, and the name derived from the seed. The RPC client that
/// carries these to a node lives outside the engine.
#[derive(Clone, Debug)]
pub struct Wallet {
    pub name: String,
    pub seed: Seed,
    pub network: ledger::Bitcoin,
}

impl Wallet {
    /// A wallet for this seed and network, named after the seed.
    pub fn new(seed: Seed, network: ledger::Bitcoin) -> (r: Wallet)
        ensures
            r.name@ == spec_wallet_name(seed@),
            r.network == network,
            r.seed@ == seed@,
    {
        let name = Wallet::gen_name(&seed);
        Wallet { name, seed, network }
    }

    /// The wallet's name: a fixed prefix and the first four bytes of
    /// the hash of the seed.
    pub fn gen_name(seed: &Seed) -> (r: String)
        ensures
            r@ == spec_wallet_name(seed@),
    {
        let h = sha256(&seed.bytes);
        let mut r = String::from_str("nectar_");
        r.append(to_hex_nopad_u8(h[0]).as_str());
        r.append(to_hex_nopad_u8(h[1]).as_str());
        r.append(to_hex_nopad_u8(h[2]).as_str());
        r.append(to_hex_nopad_u8(h[3]).as_str());
        proof {
            assert(r@ =~= spec_wallet_name(seed@));
        }
        r
    }

    /// The one-time key for a swap, derived from the seed, the swap id
    /// and a fixed label — never stored, always re-derivable. `None`
    /// in the negligible case that the derived bytes are not a valid
    /// secret key.
    pub fn derive_transient_sk(&self, swap_id: SwapId) -> (r: Option<SecretKey>)
        ensures
            r is Some <==> secret_key_valid(
                spec_transient_key(self.seed@, swap_id.value as nat),
            ),
            r matches Some(k) ==> k@ == spec_transient_key(
                self.seed@,
                swap_id.value as nat,
            ),
    {
        let mut input = bytes_to_vec(&self.seed.bytes);
        let mut id_bytes = swap_id.as_bytes();
        input.append(&mut id_bytes);
        let mut label = transient_label();
        input.append(&mut label);
        proof {
            assert(input@ =~= self.seed@ + be_bytes(swap_id.value as nat, 16)
                + spec_transient_label());
        }
        let hash = sha256(input.as_slice());
        SecretKey::from_bytes(hash)
    }

    /// The seed in WIF form, so the user can regain control of the
    /// wallet on another node via its set-seed call. The WIF here only
    /// carries the seed bytes; the seed is not itself used as a
    /// private key.
    pub fn seed_as_wif(&self) -> (r: Option<String>)
        ensures
            r is Some <==> secret_key_valid(self.seed@),
            r matches Some(s) ==> s@ == wif_of(self.seed@, self.network is Mainnet),
    {
        wif_encode(&self.seed.bytes, self.network.is_mainnet())
    }

    /// The BIP32 root key of the wallet: HMAC-SHA-512 of the seed
    /// under the fixed root label, split into 32 bytes of key and 32
    /// bytes of chain code.
    pub fn root_extended_private_key_from_seed(seed: &Seed, network: ledger::Bitcoin) -> (r:
        ExtendedPrivKey)
        ensures
            r.network == network,
            r.depth == 0,
            r.child_number == 0,
            r.private_key@ =~= spec_root_key_material(seed@).subrange(0, 32),
            r.chain_code@ =~= spec_root_key_material(seed@).subrange(32, 64),
    {
        let label = root_label();
        let material = hmac_sha512(label.as_slice(), &seed.bytes);
        let mut private_key: [u8; 32] = [0; 32];
        let mut chain_code: [u8; 32] = [0; 32];
        let mut i: usize = 0;
        while i < 32
            invariant
                i <= 32,
                material@.len() == 64,
                forall|j: int| 0 <= j < i ==> private_key@[j] == material@[j],
                forall|j: int| 0 <= j < i ==> chain_code@[j] == material@[32 + j],
            decreases 32 - i,
        {
            private_key[i] = material[i];
            chain_code[i] = material[32 + i];
            i = i + 1;
        }
        proof {
            assert(private_key@ =~= spec_root_key_material(seed@).subrange(0, 32));
            assert(chain_code@ =~= spec_root_key_material(seed@).subrange(32, 64));
        }
        ExtendedPrivKey { network, depth: 0, child_number: 0, private_key, chain_code }
    }

    /// The two derivation paths a bitcoind wallet uses: the external
    /// chain for receiving, the internal chain for change.
    pub fn hd_paths() -> (r: Vec<&'static str>)
        ensures
            r@.len() == 2,
            r@[0]@ == "/0h/0h/*h"@,
            r@[1]@ == "/0h/1h/*h"@,
    {
        let mut r: Vec<&'static str> = Vec::new();
        r.push("/0h/0h/*h");
        r.push("/0h/1h/*h");
        r
    }

    /// The wallet descriptors derived from a seed: the root key under
    /// each of the two derivation paths, wrapped in `wpkh`. `None` in
    /// the negligible case that the root key material is not a valid
    /// secret key.
    pub fn descriptors_from_seed(seed: &Seed, network: ledger::Bitcoin) -> (r: Option<Vec<String>>)
        ensures
            r is Some <==> secret_key_valid(spec_root_key_material(seed@).subrange(0, 32)),
            r matches Some(v) ==> v@.len() == 2 && v@[0]@ == spec_descriptor(
                spec_root_xpriv_text(seed@, network),
                "/0h/0h/*h"@,
            ) && v@[1]@ == spec_descriptor(spec_root_xpriv_text(seed@, network), "/0h/1h/*h"@),
    {
        let root = Self::root_extended_private_key_from_seed(seed, network);
        let text = match root.to_text() {
            Some(t) => t,
            None => {
                return None;
            },
        };
        let paths = Self::hd_paths();
        let mut out: Vec<String> = Vec::new();
        let mut d0 = String::from_str("wpkh(");
        d0.append(text.as_str());
        d0.append(paths[0]);
        d0.append(")");
        proof {
            assert(d0@ =~= spec_descriptor(spec_root_xpriv_text(seed@, network), "/0h/0h/*h"@));
        }
        out.push(d0);
        let mut d1 = String::from_str("wpkh(");
        d1.append(text.as_str());
        d1.append(paths[1]);
        d1.append(")");
        proof {
            assert(d1@ =~= spec_descriptor(spec_root_xpriv_text(seed@, network), "/0h/1h/*h"@));
        }
        out.push(d1);
        Some(out)
    }

    /// The wallet's own descriptors; see `descriptors_from_seed`.
    pub fn descriptors(&self) -> (r: Option<Vec<String>>)
        ensures
            r is Some <==> secret_key_valid(
                spec_root_key_material(self.seed@).subrange(0, 32),
            ),
            r matches Some(v) ==> v@.len() == 2 && v@[0]@ == spec_descriptor(
                spec_root_xpriv_text(self.seed@, self.network),
                "/0h/0h/*h"@,
            ) && v@[1]@ == spec_descriptor(
                spec_root_xpriv_text(self.seed@, self.network),
                "/0h/1h/*h"@,
            ),
    {
        Self::descriptors_from_seed(&self.seed, self.network)
    }

    /// A descriptor suffixed with the checksum some wallet calls
    /// require; the node computes the checksum.
    pub fn descriptor_with_checksum(descriptor: &str, checksum: &str) -> (r: String)
        ensures
            r@ == descriptor@ + "#"@ + checksum@,
    {
        let mut r = String::from_str(descriptor);
        r.append("#");
        r.append(checksum);
        r
    }
}

/// The text of the root extended key a seed derives on a network.
pub open spec fn spec_root_xpriv_text(seed: Seq<u8>, network: ledger::Bitcoin) -> Seq<char> {
    xpriv_text_of(
        spec_root_key_material(seed).subrange(0, 32),
        spec_root_key_material(seed).subrange(32, 64),
        network is Mainnet,
    )
}

} // verus!
