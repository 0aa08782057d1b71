//! The exact text forms the engine writes: JSON reports, identifier
//! text, hexadecimal and decimal encodings.

use comit::asset::{Bitcoin, Erc20Quantity};
use comit::bitcoin::PublicKey;
use comit::encoding::{hex_decode, to_hex, to_hex_nopad_u8};
use comit::http::{swap_path, Amount, OrderId, OrderProperties, Position, Protocol, State};
use comit::queries::to_h256;
use comit::types::SwapId;

#[test]
fn response_serializes_correctly() {
    let properties = OrderProperties {
        id: OrderId::new(0),
        position: Position::Sell,
        price: Amount::dai(Erc20Quantity::from_wei_dec_str("9100000000000000000000").unwrap()),
        quantity: Amount::btc(Bitcoin::from_sat(10000000)),
        state: State {
            open: Bitcoin::from_sat(3000000),
            closed: Bitcoin::from_sat(1000000),
            settling: Bitcoin::from_sat(0),
            failed: Bitcoin::from_sat(6000000),
            cancelled: Bitcoin::from_sat(0),
        },
    };

    let result = properties.to_json_pretty();

    assert_eq!(
        result,
        r#"{
  "id": "00000000-0000-0000-0000-000000000000",
  "position": "sell",
  "price": {
    "currency": "DAI",
    "value": "9100000000000000000000",
    "decimals": 18
  },
  "quantity": {
    "currency": "BTC",
    "value": "10000000",
    "decimals": 8
  },
  "state": {
    "open": "3000000",
    "closed": "1000000",
    "settling": "0",
    "failed": "6000000",
    "cancelled": "0"
  }
}"#
    );
}

#[test]
fn btc_amount_serializes_properly() {
    let amount = Amount::btc(Bitcoin::from_sat(100000000));

    let string = amount.to_json();

    assert_eq!(
        string,
        r#"{"currency":"BTC","value":"100000000","decimals":8}"#
    )
}

#[test]
fn dai_amount_serializes_properly() {
    let amount = Amount::dai(Erc20Quantity::from_wei_dec_str("9000000000000000000000").unwrap());

    let string = amount.to_json();

    assert_eq!(
        string,
        r#"{"currency":"DAI","value":"9000000000000000000000","decimals":18}"#
    )
}

#[test]
fn hbit_protocol_serializes_correctly() {
    let protocol = Protocol::hbit(Bitcoin::from_sat(10_000));

    let result = protocol.to_json_pretty();

    assert_eq!(
        result,
        r#"{
  "protocol": "hbit",
  "asset": {
    "currency": "BTC",
    "value": "10000",
    "decimals": 8
  }
}"#
    )
}

#[test]
fn herc20_protocol_serializes_correctly() {
    let protocol = Protocol::herc20_dai(Erc20Quantity::from_wei(1_000_000_000_000_000u128));

    let result = protocol.to_json_pretty();

    assert_eq!(
        result,
        r#"{
  "protocol": "herc20",
  "asset": {
    "currency": "DAI",
    "value": "1000000000000000",
    "decimals": 18
  }
}"#
    )
}

#[test]
fn serialize_bitcoin_identity() {
    let pubkey = PublicKey::from_hex_str(
        "02c2a8efce029526d364c2cf39d89e3cdda05e5df7b2cbfc098b4e3d02b70b5275",
    )
    .unwrap();

    let str = pubkey.to_hex_string();
    assert_eq!(
        str,
        "02c2a8efce029526d364c2cf39d89e3cdda05e5df7b2cbfc098b4e3d02b70b5275"
    )
}

#[test]
fn deserialize_bitcoin_identity() {
    let pubkey_str = "02c2a8efce029526d364c2cf39d89e3cdda05e5df7b2cbfc098b4e3d02b70b5275";
    let pubkey = PublicKey::from_hex_str(pubkey_str).unwrap();

    // Cross-check the parsed bytes against the secp256k1 library's own
    // parser for the same text.
    let expected = <bitcoin::secp256k1::PublicKey as std::str::FromStr>::from_str(pubkey_str)
        .unwrap()
        .serialize();

    assert_eq!(pubkey.to_bytes(), expected.to_vec());
}

#[test]
fn swap_path_names_the_swap_resource() {
    let id = SwapId::new(0x123e4567e89b12d3a456426614174000u128);
    assert_eq!(
        swap_path(id),
        "/swaps/rfc003/123e4567-e89b-12d3-a456-426614174000"
    );
}

#[test]
fn swap_id_text_is_hyphenated_and_zero_padded() {
    assert_eq!(
        SwapId::new(0).to_text(),
        "00000000-0000-0000-0000-000000000000"
    );
    assert_eq!(
        SwapId::new(u128::MAX).to_text(),
        "ffffffff-ffff-ffff-ffff-ffffffffffff"
    );
}

#[test]
fn hex_encoding_round_trips() {
    let bytes = vec![0x00u8, 0x01, 0xab, 0xcd, 0xef, 0xff];
    let text = to_hex(&bytes);
    assert_eq!(text, "0001abcdefff");
    assert_eq!(hex_decode(&text).unwrap(), bytes);
}

#[test]
fn hex_decode_accepts_uppercase_and_rejects_junk() {
    assert_eq!(hex_decode("ABCDEF").unwrap(), vec![0xabu8, 0xcd, 0xef]);
    assert!(hex_decode("abc").is_none());
    assert!(hex_decode("zz").is_none());
    assert_eq!(hex_decode("").unwrap(), Vec::<u8>::new());
}

#[test]
fn unpadded_hex_matches_the_formatter() {
    for n in [0u8, 9, 10, 15, 16, 171, 255] {
        assert_eq!(to_hex_nopad_u8(n), format!("{:x}", n));
    }
}

#[test]
fn wei_decimal_strings_parse_and_render() {
    let q = Erc20Quantity::from_wei_dec_str("9000000000000000000000").unwrap();
    assert_eq!(q.to_wei_dec_str(), "9000000000000000000000");
    assert_eq!(Erc20Quantity::from_wei_dec_str("0").unwrap().wei, 0);
    assert!(Erc20Quantity::from_wei_dec_str("").is_none());
    assert!(Erc20Quantity::from_wei_dec_str("12a").is_none());
    assert!(Erc20Quantity::from_wei_dec_str("-5").is_none());
    // One more than the largest value that fits 128 bits.
    assert!(Erc20Quantity::from_wei_dec_str("340282366920938463463374607431768211456").is_none());
    assert_eq!(
        Erc20Quantity::from_wei_dec_str("340282366920938463463374607431768211455")
            .unwrap()
            .wei,
        u128::MAX
    );
}

#[test]
fn transaction_hashes_parse_with_and_without_marker() {
    let hex = "0123456789abcdef0123456789abcdef0123456789abcdef0123456789abcdef";
    let with_marker = format!("0x{}", hex);
    let h1 = to_h256(hex).unwrap();
    let h2 = to_h256(&with_marker).unwrap();
    assert_eq!(h1, h2);
    assert_eq!(h1.bytes[0], 0x01);
    assert_eq!(h1.bytes[31], 0xef);
    assert!(to_h256("0xabcd").is_none());
    assert!(to_h256("not hex at all").is_none());
}
