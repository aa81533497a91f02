use eth_wallet::WalletError;
use eth_wallet::address::{public_key_address, AccountAddress};
use eth_wallet::hex::bytes_to_hex;
use eth_wallet::keys::{generate_keypair, parse_public_key, parse_secret_key};
use eth_wallet::tx::{create_eth_transaction, Wei};
use eth_wallet::wallet::Wallet;

const ONE_SCALAR: &str = "0000000000000000000000000000000000000000000000000000000000000001";
const G_UNCOMPRESSED: &str = "0479be667ef9dcbbac55a06295ce870b07029bfcdb2dce28d959f2815b16f81798483ada7726a3c4655da4fbfc0e1108a8fd17b448a68554199c47d08ffb10d4b8";
const G_COMPRESSED: &str = "0279be667ef9dcbbac55a06295ce870b07029bfcdb2dce28d959f2815b16f81798";
const G_ADDRESS: &str = "0x7e5f4552091a69125d5dfcb7b8c2659029395bdf";

#[test]
fn hex_text_concrete() {
    assert_eq!(bytes_to_hex(&vec![0x00, 0xff, 0x10]), "00ff10");
    assert_eq!(bytes_to_hex(&vec![]), "");
}

#[test]
fn generator_point_address_fixture() {
    let sk = parse_secret_key(ONE_SCALAR).expect("smallest scalar is valid");
    let pk = parse_public_key(G_UNCOMPRESSED).expect("generator point is valid");
    let wallet = Wallet::new(&sk, &pk);
    assert_eq!(wallet.secret_key, ONE_SCALAR);
    assert_eq!(wallet.public_key, G_COMPRESSED);
    assert_eq!(wallet.public_address, G_ADDRESS);
}

#[test]
fn address_derivation_is_deterministic() {
    let pk = parse_public_key(G_UNCOMPRESSED).expect("generator point is valid");
    let a1 = public_key_address(&pk);
    let a2 = public_key_address(&pk);
    assert_eq!(a1.as_bytes(), a2.as_bytes());
    assert_eq!(a1.as_bytes().len(), 20);
}

#[test]
fn address_is_twenty_bytes_for_fresh_keys() {
    let (_sk, pk) = generate_keypair();
    let addr = public_key_address(&pk);
    assert_eq!(addr.as_bytes().len(), 20);
}

#[test]
fn compressed_text_parses_back_to_same_point() {
    let pk = parse_public_key(G_UNCOMPRESSED).expect("generator point is valid");
    let reparsed = parse_public_key(G_COMPRESSED).expect("compressed text is valid");
    assert_eq!(pk.as_bytes(), reparsed.as_bytes());
}

#[test]
fn persist_then_reload_round_trip() {
    let (sk, pk) = generate_keypair();
    let wallet = Wallet::new(&sk, &pk);
    let text = wallet.to_json();
    let reloaded = Wallet::from_json(&text).expect("own encoding must parse");
    assert_eq!(reloaded.secret_key, wallet.secret_key);
    assert_eq!(reloaded.public_key, wallet.public_key);
    assert_eq!(reloaded.public_address, wallet.public_address);

    let stored_pk = reloaded.get_public_key().expect("stored point is valid");
    let derived = public_key_address(&stored_pk);
    assert_eq!(derived.to_text(), reloaded.public_address);

    let stored_sk = reloaded.get_secret_key().expect("stored scalar is valid");
    assert_eq!(stored_sk.as_bytes(), sk.as_bytes());
}

#[test]
fn round_trip_concrete_record() {
    let wallet = Wallet {
        secret_key: "1111111111111111111111111111111111111111111111111111111111111111"
            .to_string(),
        public_key: "02aaaaaaaaaaaaaaaaaaaaaaaaaaaaaaaaaaaaaaaaaaaaaaaaaaaaaaaaaaaaaaaa"
            .to_string(),
        public_address: "0x0123456789abcdef0123456789abcdef01234567".to_string(),
    };
    let text = wallet.to_json();
    assert_eq!(
        text,
        "{\"secret_key\":\"1111111111111111111111111111111111111111111111111111111111111111\",\"public_key\":\"02aaaaaaaaaaaaaaaaaaaaaaaaaaaaaaaaaaaaaaaaaaaaaaaaaaaaaaaaaaaaaaaa\",\"public_address\":\"0x0123456789abcdef0123456789abcdef01234567\"}"
    );
    let reloaded = Wallet::from_json(&text).expect("canonical text must parse");
    assert_eq!(reloaded.secret_key, wallet.secret_key);
    assert_eq!(reloaded.public_key, wallet.public_key);
    assert_eq!(reloaded.public_address, wallet.public_address);
}

#[test]
fn reader_accepts_whitespace_and_any_key_order() {
    let sk = "1111111111111111111111111111111111111111111111111111111111111111";
    let pk = "02aaaaaaaaaaaaaaaaaaaaaaaaaaaaaaaaaaaaaaaaaaaaaaaaaaaaaaaaaaaaaaaa";
    let ad = "0x0123456789abcdef0123456789abcdef01234567";
    let pretty = format!(
        "{{\n  \"secret_key\": \"{}\",\n  \"public_key\": \"{}\",\n  \"public_address\": \"{}\"\n}}",
        sk, pk, ad
    );
    let reordered = format!(
        "  {{ \"public_address\" : \"{}\", \"secret_key\": \"{}\",\t\"public_key\":\"{}\" }}  ",
        ad, sk, pk
    );
    for text in [pretty, reordered] {
        let w = Wallet::from_json(&text).expect("whitespace and key order are insignificant");
        assert_eq!(w.secret_key, sk);
        assert_eq!(w.public_key, pk);
        assert_eq!(w.public_address, ad);
    }
}

#[test]
fn reader_rejects_duplicate_keys() {
    let sk = "1111111111111111111111111111111111111111111111111111111111111111";
    let ad = "0x0123456789abcdef0123456789abcdef01234567";
    let text = format!(
        "{{\"secret_key\":\"{}\",\"secret_key\":\"{}\",\"public_address\":\"{}\"}}",
        sk, sk, ad
    );
    assert!(Wallet::from_json(&text).is_err());
}

#[test]
fn address_text_decodes_to_bytes() {
    let a = AccountAddress::from_text("0x0123456789abcdef0123456789ABCDEF01234567")
        .expect("well-shaped address text");
    assert_eq!(
        a.as_bytes(),
        &vec![
            0x01, 0x23, 0x45, 0x67, 0x89, 0xab, 0xcd, 0xef, 0x01, 0x23, 0x45, 0x67, 0x89, 0xab,
            0xcd, 0xef, 0x01, 0x23, 0x45, 0x67,
        ]
    );
    assert!(AccountAddress::from_text("0123456789abcdef0123456789abcdef01234567").is_none());
    assert!(AccountAddress::from_text("0xzz23456789abcdef0123456789abcdef01234567").is_none());
    assert!(AccountAddress::from_text("0x01").is_none());
}

#[test]
fn fresh_record_accessors_succeed() {
    let (sk, pk) = generate_keypair();
    let wallet = Wallet::new(&sk, &pk);
    let stored_sk = wallet.get_secret_key().expect("created record stores a valid scalar");
    let stored_pk = wallet.get_public_key().expect("created record stores a valid point");
    assert_eq!(stored_sk.as_bytes(), sk.as_bytes());
    assert_eq!(stored_pk.as_bytes(), pk.as_bytes());
}

#[test]
fn malformed_records_return_parse_error() {
    for text in [
        "",
        "this is not a wallet record",
        "{}",
        "{\"secret_key\":\"\",\"public_key\":\"\",\"public_address\":\"\"}",
        "{\"secret_key\":\"zz11111111111111111111111111111111111111111111111111111111111111\",\"public_key\":\"02aaaaaaaaaaaaaaaaaaaaaaaaaaaaaaaaaaaaaaaaaaaaaaaaaaaaaaaaaaaaaaaa\",\"public_address\":\"0x0123456789abcdef0123456789abcdef01234567\"}",
    ] {
        match Wallet::from_json(text) {
            Err(e) => assert_eq!(e, WalletError::MalformedRecord),
            Ok(_) => panic!("malformed text must not parse"),
        }
    }
}

#[test]
fn invalid_stored_key_text_is_reported() {
    let wallet = Wallet {
        secret_key: "not hex".to_string(),
        public_key: "also not hex".to_string(),
        public_address: "0x0123456789abcdef0123456789abcdef01234567".to_string(),
    };
    assert_eq!(wallet.get_secret_key().err(), Some(WalletError::InvalidSecretKeyText));
    assert_eq!(wallet.get_public_key().err(), Some(WalletError::InvalidPublicKeyText));
}

#[test]
fn secret_key_text_accepts_uppercase_hex() {
    let wallet = Wallet {
        secret_key: "00000000000000000000000000000000000000000000000000000000000000AA"
            .to_string(),
        public_key: G_COMPRESSED.to_string(),
        public_address: G_ADDRESS.to_string(),
    };
    let sk = wallet.get_secret_key().expect("uppercase hex is a valid scalar encoding");
    let mut expected = vec![0u8; 31];
    expected.push(0xAA);
    assert_eq!(sk.as_bytes(), &expected);
}

#[test]
fn transaction_intent_construction() {
    let destination = AccountAddress::from_bytes(vec![0xAA; 20]).expect("20 bytes");
    let value = Wei::from_base_units(1_500_000_000_000_000_000);
    let intent = create_eth_transaction(destination, value);
    assert_eq!(intent.to.as_bytes(), &vec![0xAA; 20]);
    assert_eq!(intent.to.to_text(), "0xaaaaaaaaaaaaaaaaaaaaaaaaaaaaaaaaaaaaaaaa");
    assert_eq!(intent.value.hi, 0);
    assert_eq!(intent.value.lo, 1_500_000_000_000_000_000);
}

#[test]
fn account_address_requires_twenty_bytes() {
    assert!(AccountAddress::from_bytes(vec![0xAA; 19]).is_none());
    assert!(AccountAddress::from_bytes(vec![0xAA; 21]).is_none());
    assert!(AccountAddress::from_bytes(vec![]).is_none());
}

#[test]
fn fresh_keypairs_differ() {
    let (_, pk1) = generate_keypair();
    let (_, pk2) = generate_keypair();
    assert_ne!(pk1.as_bytes(), pk2.as_bytes());
}
