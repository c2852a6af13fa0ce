use hot_wallet::algorithm::DerivationAlgorithm;
use hot_wallet::error::WalletError;
use hot_wallet::hex::to_hex_string;
use hot_wallet::invocation::derive_private_key;
use hot_wallet::keys::{
    derive_address, derive_secret, digest_address, public_key_address, secret_or_failure,
    PrivateKey,
};
use hot_wallet::mnemonic::{Mnemonic, Seed};

const ABANDON_ABOUT: &str =
    "abandon abandon abandon abandon abandon abandon abandon abandon abandon abandon abandon about";

const PANDA: &str = "panda eyebrow bullet gorilla call smoke muffin taste mesh discover soft \
                     ostrich alcohol speed nation flash devote level hobby quick inner drive \
                     ghost inside";

const ORDER: [u8; 32] = [
    0xff, 0xff, 0xff, 0xff, 0xff, 0xff, 0xff, 0xff, 0xff, 0xff, 0xff, 0xff, 0xff, 0xff, 0xff, 0xfe,
    0xba, 0xae, 0xdc, 0xe6, 0xaf, 0x48, 0xa0, 0x3b, 0xbf, 0xd2, 0x5e, 0x8c, 0xd0, 0x36, 0x41, 0x41,
];

fn key_one() -> [u8; 32] {
    let mut key = [0u8; 32];
    key[31] = 1;
    key
}

fn is_address_text(text: &str) -> bool {
    text.len() == 42
        && text.starts_with("0x")
        && text[2..].chars().all(|c| c.is_ascii_digit() || ('a'..='f').contains(&c))
}

#[test]
fn golden_address_of_abandon_about_on_the_default_path() {
    let mnemonic = Mnemonic::from_phrase(ABANDON_ABOUT).ok().unwrap();
    let key = derive_private_key(&mnemonic, DerivationAlgorithm::Bip44Default).ok().unwrap();
    assert_eq!(key.to_hex(), "1ab42cc412b618bdea3a599e3c9bae199ebf030895b039e9db1e30dafb12b727");
    assert_eq!(key.address(), "0x9858effd232b4033e47d90003d41ec34ecaeda94");
}

#[test]
fn documented_key_and_address_of_a_24_word_phrase() {
    let mnemonic = Mnemonic::from_phrase(PANDA).ok().unwrap();
    let key = derive_private_key(&mnemonic, DerivationAlgorithm::Bip44Default).ok().unwrap();
    assert_eq!(key.to_hex(), "ff1e68eb7bf2f48651c47ef0177eb815857322257c5894bb4cfd1176c9989314");
    assert_eq!(key.address(), "0x63f9a92d8d61b48a9fff8d58080425a3012d05c8");
}

#[test]
fn documented_secret_of_a_constant_seed() {
    let seed = Seed::from_slice(&[42u8; 64]).unwrap();
    let secret = derive_secret(&seed, DerivationAlgorithm::Bip44Default).ok().unwrap();
    assert_eq!(
        to_hex_string(&secret, 64),
        "9884bf5624fadd7fb2804cfb0cb6f71f289e211fcf0de836a3841757dad970d0"
    );
}

#[test]
fn the_two_paths_give_different_keys() {
    for phrase in [ABANDON_ABOUT, PANDA] {
        let mnemonic = Mnemonic::from_phrase(phrase).ok().unwrap();
        let default = derive_private_key(&mnemonic, DerivationAlgorithm::Bip44Default).ok().unwrap();
        let legacy = derive_private_key(&mnemonic, DerivationAlgorithm::MetamaskLegacy).ok().unwrap();
        assert_ne!(default.serialize(), legacy.serialize());
        assert_ne!(default.address(), legacy.address());
    }
    let seed = Seed::from_slice(&[42u8; 64]).unwrap();
    assert_ne!(
        derive_secret(&seed, DerivationAlgorithm::Bip44Default),
        derive_secret(&seed, DerivationAlgorithm::MetamaskLegacy)
    );
}

#[test]
fn derivation_gives_the_same_key_every_time() {
    for algorithm in [DerivationAlgorithm::Bip44Default, DerivationAlgorithm::MetamaskLegacy] {
        let first = Mnemonic::from_phrase(ABANDON_ABOUT).ok().unwrap();
        let second = Mnemonic::from_phrase(ABANDON_ABOUT).ok().unwrap();
        assert_eq!(first.to_seed().as_bytes(), second.to_seed().as_bytes());
        let a = derive_private_key(&first, algorithm).ok().unwrap();
        let b = derive_private_key(&second, algorithm).ok().unwrap();
        let c = derive_private_key(&first, algorithm).ok().unwrap();
        assert_eq!(a.serialize(), b.serialize());
        assert_eq!(a.serialize(), c.serialize());
        assert_eq!(a.address(), b.address());
        assert_eq!(a.address(), c.address());
    }
}

#[test]
fn a_walk_without_a_key_is_a_derivation_failure() {
    assert_eq!(secret_or_failure(None), Err(WalletError::DerivationFailed));
    assert_eq!(secret_or_failure(Some([9u8; 32])), Ok([9u8; 32]));
}

#[test]
fn address_of_the_key_one() {
    assert_eq!(
        derive_address(&key_one()),
        Ok("0x7e5f4552091a69125d5dfcb7b8c2659029395bdf".to_string())
    );
}

#[test]
fn public_key_of_the_key_one_is_the_generator() {
    let key = PrivateKey::parse_slice(&key_one()).ok().unwrap();
    let public_key = key.public_key();
    assert_eq!(public_key.len(), 65);
    assert_eq!(public_key[0], 4);
    assert_eq!(
        to_hex_string(&public_key[1..], 128),
        "79be667ef9dcbbac55a06295ce870b07029bfcdb2dce28d959f2815b16f81798\
         483ada7726a3c4655da4fbfc0e1108a8fd17b448a68554199c47d08ffb10d4b8"
    );
    assert_eq!(public_key_address(&public_key), "0x7e5f4552091a69125d5dfcb7b8c2659029395bdf");
}

#[test]
fn address_drops_the_format_byte_of_the_public_key() {
    let key = PrivateKey::parse_slice(&key_one()).ok().unwrap();
    let mut public_key = key.public_key();
    let address = public_key_address(&public_key);
    public_key[0] = 0;
    assert_eq!(public_key_address(&public_key), address);
    public_key[64] ^= 1;
    assert_ne!(public_key_address(&public_key), address);
}

#[test]
fn address_is_the_tail_of_the_digest() {
    let mut digest = [0u8; 32];
    for (i, byte) in digest.iter_mut().enumerate() {
        *byte = i as u8;
    }
    assert_eq!(digest_address(&digest), "0x0c0d0e0f101112131415161718191a1b1c1d1e1f");
    assert_eq!(digest_address(&[0xab; 32]), format!("0x{}", "ab".repeat(20)));
}

#[test]
fn every_address_has_42_lowercase_characters() {
    for seed_byte in 1..=20u8 {
        let mut secret = [seed_byte; 32];
        secret[0] = 0;
        let address = derive_address(&secret).ok().unwrap();
        assert!(is_address_text(&address));
        assert_eq!(address, address.to_lowercase());
        assert_eq!(address.len(), 42);
    }
}

#[test]
fn the_zero_key_is_rejected() {
    assert_eq!(derive_address(&[0u8; 32]), Err(WalletError::InvalidSecretKey));
    assert_eq!(PrivateKey::parse_slice(&[0u8; 32]).err(), Some(WalletError::InvalidSecretKey));
}

#[test]
fn a_key_at_or_above_the_order_is_rejected() {
    assert_eq!(derive_address(&ORDER), Err(WalletError::InvalidSecretKey));
    let mut above = ORDER;
    above[31] += 1;
    assert_eq!(derive_address(&above), Err(WalletError::InvalidSecretKey));
    assert_eq!(derive_address(&[0xff; 32]), Err(WalletError::InvalidSecretKey));
}

#[test]
fn the_largest_key_below_the_order_is_accepted() {
    let mut below = ORDER;
    below[31] -= 1;
    let key = PrivateKey::parse_slice(&below).ok().unwrap();
    assert_eq!(key.serialize(), below);
    let address = derive_address(&below).ok().unwrap();
    assert!(is_address_text(&address));
    assert_eq!(address, "0x80c0dbf239224071c59dd8970ab9d542e3414ab2");
}

#[test]
fn a_key_of_the_wrong_length_is_rejected() {
    assert_eq!(derive_address(&[]), Err(WalletError::InvalidSecretKey));
    assert_eq!(derive_address(&[1u8; 31]), Err(WalletError::InvalidSecretKey));
    assert_eq!(derive_address(&[1u8; 33]), Err(WalletError::InvalidSecretKey));
}

#[test]
fn a_private_key_serialises_to_the_bytes_it_was_parsed_from() {
    let bytes = key_one();
    let key = PrivateKey::parse_slice(&bytes).ok().unwrap();
    assert_eq!(key.serialize(), bytes);
    assert_eq!(key.to_hex(), format!("{}01", "00".repeat(31)));
    assert_eq!(key.to_hex().len(), 64);
}
