//! The deterministic key material, held against the upstream bitcoin
//! library and against published test vectors, and the block cache's
//! read-through behaviour.

use bitcoin::hashes::HashEngine;

fn sha256_upstream(data: &[u8]) -> [u8; 32] {
    let h = <bitcoin::hashes::sha256::Hash as bitcoin::hashes::Hash>::hash(data);
    <bitcoin::hashes::sha256::Hash as bitcoin::hashes::Hash>::to_byte_array(h)
}
use comit::bitcoin::{PublicKey, SecretKey};
use comit::cache::Cache;
use comit::hbit::Block;
use comit::ledger;
use comit::secret::{Secret, SecretHash};
use comit::types::SwapId;
use comit::wallet::{
    check_network, wallet_init_decision, ExtendedPrivKey, InitAction, Seed, Wallet, WalletInfo,
};

fn seed() -> Seed {
    Seed::from_bytes([0x51; 32])
}

#[test]
fn secret_hash_is_a_single_sha256_pass() {
    let secret = Secret::from_bytes([0x00; 32]);
    let hash = SecretHash::new(&secret);
    // The digest of 32 zero bytes, from the upstream library.
    let expected = sha256_upstream(&[0x00u8; 32]);
    assert_eq!(hash.bytes, expected);
    assert_eq!(
        comit::encoding::to_hex(&hash.bytes),
        "66687aadf862bd776c8fc18b8e9f8e20089714856ee233b3902a591d0d5f2925"
    );
    assert!(hash.matches(&secret));
    assert!(!hash.matches(&Secret::from_bytes([0x01; 32])));
}

#[test]
fn secrets_are_exactly_thirty_two_bytes() {
    assert!(Secret::from_vec(&vec![0u8; 31]).is_none());
    assert!(Secret::from_vec(&vec![0u8; 33]).is_none());
    let s = Secret::from_vec(&vec![7u8; 32]).unwrap();
    assert_eq!(s.bytes, [7u8; 32]);
}

#[test]
fn generated_secrets_differ() {
    // Random generation promises nothing of the value, but two fresh
    // 256-bit secrets colliding means the generator is broken.
    let a = Secret::generate();
    let b = Secret::generate();
    assert_ne!(a.bytes, b.bytes);
}

#[test]
fn wallet_name_is_derived_from_the_seed() {
    let wallet = Wallet::new(seed(), ledger::Bitcoin::Regtest);
    let hash = sha256_upstream(&seed().bytes);
    let expected = format!(
        "nectar_{:x}{:x}{:x}{:x}",
        hash[0], hash[1], hash[2], hash[3]
    );
    assert_eq!(wallet.name, expected);
    assert!(wallet.name.starts_with("nectar_"));
}

#[test]
fn transient_keys_are_rederivable_and_per_swap() {
    let wallet = Wallet::new(seed(), ledger::Bitcoin::Regtest);
    let k1 = wallet.derive_transient_sk(SwapId::new(1)).unwrap();
    let k1_again = wallet.derive_transient_sk(SwapId::new(1)).unwrap();
    let k2 = wallet.derive_transient_sk(SwapId::new(2)).unwrap();
    assert_eq!(k1, k1_again);
    assert_ne!(k1, k2);

    // Cross-check the derivation against the upstream hash engine fed
    // the same three inputs.
    let mut engine = bitcoin::hashes::sha256::HashEngine::default();
    engine.input(&seed().bytes);
    engine.input(&1u128.to_be_bytes());
    engine.input(b"TRANSIENT_KEY");
    let digest = <bitcoin::hashes::sha256::Hash as bitcoin::hashes::Hash>::from_engine(engine);
    let expected = <bitcoin::hashes::sha256::Hash as bitcoin::hashes::Hash>::to_byte_array(digest);
    assert_eq!(k1.bytes, expected);
}

#[test]
fn seed_as_wif_matches_the_upstream_encoder() {
    let wallet = Wallet::new(seed(), ledger::Bitcoin::Regtest);
    let wif = wallet.seed_as_wif().unwrap();

    let sk = bitcoin::secp256k1::SecretKey::from_slice(&seed().bytes).unwrap();
    let expected = bitcoin::PrivateKey::new(sk, bitcoin::NetworkKind::Test).to_wif();
    assert_eq!(wif, expected);
}

#[test]
fn seed_as_wif_matches_the_published_vector() {
    // The Bitcoin wiki's example key, in compressed mainnet WIF form.
    let key = [
        0x0Cu8, 0x28, 0xFC, 0xA3, 0x86, 0xC7, 0xA2, 0x27, 0x60, 0x0B, 0x2F, 0xE5, 0x0B, 0x7C,
        0xAE, 0x11, 0xEC, 0x86, 0xD3, 0xBF, 0x1F, 0xBE, 0x47, 0x1B, 0xE8, 0x98, 0x27, 0xE1,
        0x9D, 0x72, 0xAA, 0x1D,
    ];
    let wallet = Wallet::new(Seed::from_bytes(key), ledger::Bitcoin::Mainnet);
    assert_eq!(
        wallet.seed_as_wif().unwrap(),
        "KwdMAjGmerYanjeui5SHS7JkmpZvVipYvB2LJGU1ZxJwYvP98617"
    );
}

#[test]
fn root_key_calculated_from_seed_matches_the_upstream_derivation() {
    let root = Wallet::root_extended_private_key_from_seed(&seed(), ledger::Bitcoin::Regtest);
    assert_eq!(root.depth, 0);
    assert_eq!(root.child_number, 0);

    let upstream =
        bitcoin::bip32::Xpriv::new_master(bitcoin::NetworkKind::Test, &seed().bytes).unwrap();
    assert_eq!(root.private_key, upstream.private_key.secret_bytes());
    assert_eq!(root.to_text().unwrap(), upstream.to_string());
}

#[test]
fn descriptors_wrap_the_root_key_in_both_derivation_paths() {
    let descriptors =
        Wallet::descriptors_from_seed(&seed(), ledger::Bitcoin::Regtest).unwrap();
    assert_eq!(descriptors.len(), 2);

    let root = Wallet::root_extended_private_key_from_seed(&seed(), ledger::Bitcoin::Regtest);
    let xprv = root.to_text().unwrap();
    assert_eq!(descriptors[0], format!("wpkh({}/0h/0h/*h)", xprv));
    assert_eq!(descriptors[1], format!("wpkh({}/0h/1h/*h)", xprv));

    let wallet = Wallet::new(seed(), ledger::Bitcoin::Regtest);
    assert_eq!(wallet.descriptors().unwrap(), descriptors);
}

#[test]
fn descriptor_checksums_are_appended_after_a_marker() {
    assert_eq!(
        Wallet::descriptor_with_checksum("wpkh(abc/0h/0h/*h)", "12345678"),
        "wpkh(abc/0h/0h/*h)#12345678"
    );
}

#[test]
fn public_key_of_the_unit_secret_key_is_the_generator_point() {
    let mut one = [0u8; 32];
    one[31] = 1;
    let sk = SecretKey::from_bytes(one).unwrap();
    let pk = PublicKey::from_secret_key(&sk).unwrap();
    assert_eq!(
        pk.to_hex_string(),
        "0279be667ef9dcbbac55a06295ce870b07029bfcdb2dce28d959f2815b16f81798"
    );
}

#[test]
fn invalid_secret_keys_are_refused() {
    // Zero is not a valid secp256k1 secret key.
    assert!(SecretKey::from_bytes([0u8; 32]).is_none());
    // Nor is anything at or above the curve order.
    assert!(SecretKey::from_bytes([0xffu8; 32]).is_none());
}

#[test]
fn network_mismatch_is_fatal_for_the_operation() {
    assert!(check_network(ledger::Bitcoin::Regtest, ledger::Bitcoin::Regtest).is_ok());
    let err = check_network(ledger::Bitcoin::Mainnet, ledger::Bitcoin::Testnet).unwrap_err();
    assert_eq!(err.expected, ledger::Bitcoin::Mainnet);
    assert_eq!(err.actual, ledger::Bitcoin::Testnet);
}

#[test]
fn wallet_initialization_covers_all_three_states() {
    assert_eq!(wallet_init_decision(None), InitAction::CreateThenSetSeed);
    assert_eq!(
        wallet_init_decision(Some(WalletInfo { hd_seed_set: false })),
        InitAction::SetSeed
    );
    assert_eq!(
        wallet_init_decision(Some(WalletInfo { hd_seed_set: true })),
        InitAction::Nothing
    );
}

#[test]
fn extended_key_text_depends_on_the_network_kind() {
    let root = Wallet::root_extended_private_key_from_seed(&seed(), ledger::Bitcoin::Mainnet);
    let text = root.to_text().unwrap();
    assert!(text.starts_with("xprv"));
    let test_root = ExtendedPrivKey {
        network: ledger::Bitcoin::Regtest,
        ..root
    };
    assert!(test_root.to_text().unwrap().starts_with("tprv"));
}

fn block(n: u8) -> Block {
    Block {
        hash: [n; 32],
        parent: [n.wrapping_sub(1); 32],
        height: n as u32,
        transactions: vec![],
    }
}

// The surrounding loop: look up, fetch on a miss, store.
fn block_by_hash(cache: &mut Cache, connector_calls: &mut u32, hash: [u8; 32]) -> Block {
    match cache.lookup_block(&hash) {
        Some(b) => b,
        None => {
            *connector_calls += 1;
            let fetched = block(hash[0]);
            cache.store_block(fetched.clone());
            fetched
        }
    }
}

#[test]
fn block_by_hash_hits_the_connector_exactly_once_per_hash() {
    let mut cache = Cache::new(16);
    let mut connector_calls = 0u32;

    let first = block_by_hash(&mut cache, &mut connector_calls, [5; 32]);
    let second = block_by_hash(&mut cache, &mut connector_calls, [5; 32]);
    assert_eq!(connector_calls, 1);
    assert_eq!(first.hash, second.hash);
    assert_eq!(first.height, second.height);

    let other = block_by_hash(&mut cache, &mut connector_calls, [6; 32]);
    assert_eq!(connector_calls, 2);
    assert_eq!(other.height, 6);
}

#[test]
fn storing_the_same_block_twice_is_harmless() {
    let mut cache = Cache::new(4);
    cache.store_block(block(9));
    cache.store_block(block(9));
    let b = cache.lookup_block(&[9; 32]).unwrap();
    assert_eq!(b.height, 9);
}

#[test]
fn the_network_slot_is_filled_once_and_reused() {
    let mut cache = Cache::new(4);
    assert!(cache.network().is_none());
    cache.record_network(ledger::Bitcoin::Testnet);
    assert_eq!(cache.network(), Some(ledger::Bitcoin::Testnet));
    // A racing second fill writes the identical value.
    cache.record_network(ledger::Bitcoin::Testnet);
    assert_eq!(cache.network(), Some(ledger::Bitcoin::Testnet));
}

#[test]
fn hex_that_is_not_a_curve_point_is_refused() {
    // 66 hexadecimal digits whose first byte is no compressed-point
    // marker: not a public key.
    let not_a_point = "01c2a8efce029526d364c2cf39d89e3cdda05e5df7b2cbfc098b4e3d02b70b5275";
    assert!(PublicKey::from_hex_str(not_a_point).is_none());
    assert!(bitcoin::secp256k1::PublicKey::from_slice(
        &comit::encoding::hex_decode(not_a_point).unwrap()
    )
    .is_err());

    // A derived key always parses back.
    let mut one = [0u8; 32];
    one[31] = 1;
    let pk = PublicKey::from_secret_key(&SecretKey::from_bytes(one).unwrap()).unwrap();
    assert!(PublicKey::from_hex_str(&pk.to_hex_string()).is_some());
}

#[test]
fn the_cache_never_exceeds_its_capacity() {
    let mut cache = Cache::new(2);
    cache.store_block(block(1));
    cache.store_block(block(2));
    cache.store_block(block(3));

    // The least recently used entry was evicted to keep the bound.
    assert!(cache.lookup_block(&[1; 32]).is_none());
    assert!(cache.lookup_block(&[2; 32]).is_some());
    assert!(cache.lookup_block(&[3; 32]).is_some());
}
