//! Private keys on secp256k1, the key tree that a seed spans, and the
//! account address of a key.

use crate::algorithm::DerivationAlgorithm;
use crate::error::WalletError;
use crate::hex::{hex_chars, is_lower_hex, lemma_hex_chars_shape, to_hex_string};
use crate::mnemonic::Seed;
use vstd::prelude::*;
use vstd::string::StringExecFns;

verus! {

/// Bytes of a private key.
pub const SECRET_KEY_BYTES: usize = 32;

/// Bytes of an uncompressed public key: a format byte and two coordinates.
pub const PUBLIC_KEY_BYTES: usize = 65;

/// Bytes of a Keccak-256 digest.
pub const KECCAK_OUTPUT_BYTES: usize = 32;

/// Bytes of an account address.
pub const ADDRESS_BYTES: usize = 20;

/// Hexadecimal digits of an account address.
pub const ADDRESS_LENGTH: usize = 40;

/// Where the address starts within the digest of the public key.
pub const ADDRESS_BYTE_INDEX: usize = 12;

/// The secret key at the end of `path` in the key tree of `seed`: what
/// `tiny_hderive::bip32::ExtendedPrivKey::derive` computes, `None` where it
/// reports an error.
pub uninterp spec fn hd_secret(seed: Seq<u8>, path: Seq<char>) -> Option<Seq<u8>>;

/// The uncompressed public key of a valid secret key, as
/// `libsecp256k1::PublicKey::serialize` writes the point that
/// `PublicKey::from_secret_key` computes.
pub uninterp spec fn secp256k1_public_key(secret: Seq<u8>) -> Seq<u8>;

/// The Keccak-256 digest of `data` as `tiny_keccak::Keccak::v256` computes
/// it: Keccak with its own padding, not that of SHA3-256.
pub uninterp spec fn keccak256(data: Seq<u8>) -> Seq<u8>;

/// The number of points on secp256k1: valid secret keys lie strictly between
/// zero and this order.
pub open spec fn secp256k1_order() -> nat {
    0xFFFFFFFF_FFFFFFFF_FFFFFFFF_FFFFFFFE_BAAEDCE6_AF48A03B_BFD25E8C_D0364141nat
}

/// The number that `bytes` spell, most significant byte first.
pub open spec fn be_value(bytes: Seq<u8>) -> nat
    decreases bytes.len(),
{
    if bytes.len() == 0 {
        0
    } else {
        be_value(bytes.drop_last()) * 256 + bytes.last() as nat
    }
}

/// A secret key is valid when it has 32 bytes and spells a number that is
/// neither zero nor at or above the order of the curve.
pub open spec fn valid_secret_key(bytes: Seq<u8>) -> bool {
    &&& bytes.len() == SECRET_KEY_BYTES
    &&& 0 < be_value(bytes)
    &&& be_value(bytes) < secp256k1_order()
}

/// The 20 bytes of the address that belongs to an uncompressed public key:
/// the tail of the digest of its two coordinates, without the format byte.
pub open spec fn address_bytes(public_key: Seq<u8>) -> Seq<u8> {
    keccak256(public_key.subrange(1, PUBLIC_KEY_BYTES as int)).subrange(
        ADDRESS_BYTE_INDEX as int,
        KECCAK_OUTPUT_BYTES as int,
    )
}

/// The text of an address: `0x` and the hexadecimal digits of its bytes.
pub open spec fn address_text(bytes: Seq<u8>) -> Seq<char> {
    seq!['0', 'x'] + hex_chars(bytes)
}

/// The shape of every address text: 42 characters, `0x` and then 40
/// lowercase hexadecimal digits.
pub open spec fn is_address_text(text: Seq<char>) -> bool {
    &&& text.len() == ADDRESS_LENGTH + 2
    &&& text[0] == '0'
    &&& text[1] == 'x'
    &&& forall|i: int| 2 <= i < text.len() ==> is_lower_hex(#[trigger] text[i])
}

/// The address text of a valid secret key.
pub open spec fn secret_key_address(secret: Seq<u8>) -> Seq<char> {
    address_text(address_bytes(secp256k1_public_key(secret)))
}

/// A valid secret key of the curve.
pub struct PrivateKey {
    bytes: [u8; 32],
}

impl View for PrivateKey {
    type V = Seq<u8>;

    closed spec fn view(&self) -> Seq<u8> {
        self.bytes@
    }
}

impl PrivateKey {
    /// Every private key is a valid secret key.
    #[verifier::type_invariant]
    pub closed spec fn wf(self) -> bool {
        valid_secret_key(self.bytes@)
    }

    /// Accepts `bytes` as a private key, or rejects them with
    /// `InvalidSecretKey` when they are not 32 bytes, spell zero, or spell a
    /// number at or above the order of the curve.
    pub fn parse_slice(bytes: &[u8]) -> (parsed: Result<PrivateKey, WalletError>)
        ensures
            valid_secret_key(bytes@) ==> (parsed matches Ok(key) && key@ == bytes@),
            !valid_secret_key(bytes@) ==> parsed == Err::<PrivateKey, WalletError>(
                WalletError::InvalidSecretKey,
            ),
    {
        match secp256k1_secret_key(bytes) {
            Some(canonical) => Ok(PrivateKey { bytes: canonical }),
            None => Err(WalletError::InvalidSecretKey),
        }
    }

    /// The 32 bytes of the key, most significant first.
    pub fn serialize(&self) -> (bytes: [u8; 32])
        ensures
            bytes@ == self@,
            valid_secret_key(bytes@),
    {
        proof {
            use_type_invariant(self);
        }
        self.bytes
    }

    /// The key as lowercase hexadecimal text of 64 digits.
    pub fn to_hex(&self) -> (text: String)
        ensures
            text@ == hex_chars(self@),
            text@.len() == 2 * SECRET_KEY_BYTES,
    {
        proof {
            use_type_invariant(self);
            lemma_hex_chars_shape(self.bytes@);
        }
        to_hex_string(self.bytes.as_slice(), 2 * SECRET_KEY_BYTES)
    }

    /// The uncompressed public key of this key: 65 bytes.
    pub fn public_key(&self) -> (public_key: [u8; 65])
        ensures
            public_key@ == secp256k1_public_key(self@),
    {
        proof {
            use_type_invariant(self);
        }
        match secp256k1_public(&self.bytes) {
            Some(public_key) => public_key,
            None => {
                proof {
                    assert(false);
                }
                [0u8; 65]
            },
        }
    }

    /// The text of the account address of this key.
    pub fn address(&self) -> (text: String)
        ensures
            text@ == secret_key_address(self@),
            is_address_text(text@),
    {
        let public_key = self.public_key();
        public_key_address(&public_key)
    }
}

/// The secret key at the node that `algorithm` names in the key tree of
/// `seed`, or `DerivationFailed` where a node on the way has no valid key.
pub fn derive_secret(seed: &Seed, algorithm: DerivationAlgorithm) -> (derived: Result<
    [u8; 32],
    WalletError,
>)
    ensures
        match hd_secret(seed@, algorithm.path_spec()) {
            Some(secret) => derived matches Ok(bytes) && bytes@ == secret,
            None => derived == Err::<[u8; 32], WalletError>(WalletError::DerivationFailed),
        },
{
    secret_or_failure(hd_derive(seed.as_bytes(), algorithm.path()))
}

/// Turns the outcome of a walk through the key tree into a result: the
/// secret where there is one, `DerivationFailed` where there is none.
pub fn secret_or_failure(outcome: Option<[u8; 32]>) -> (derived: Result<[u8; 32], WalletError>)
    ensures
        match outcome {
            Some(secret) => derived == Ok::<[u8; 32], WalletError>(secret),
            None => derived == Err::<[u8; 32], WalletError>(WalletError::DerivationFailed),
        },
{
    match outcome {
        Some(secret) => Ok(secret),
        None => Err(WalletError::DerivationFailed),
    }
}

/// The address text for the digest of a public key's coordinates: `0x` and
/// the hexadecimal digits of the last 20 bytes of the digest.
pub fn digest_address(digest: &[u8; 32]) -> (text: String)
    ensures
        text@ == address_text(
            digest@.subrange(ADDRESS_BYTE_INDEX as int, KECCAK_OUTPUT_BYTES as int),
        ),
        is_address_text(text@),
{
    let tail = slice_range(digest.as_slice(), ADDRESS_BYTE_INDEX, KECCAK_OUTPUT_BYTES);
    let digits = to_hex_string(tail, ADDRESS_LENGTH);
    let mut text = String::from_str("0x");
    proof {
        reveal_strlit("0x");
        assert("0x"@ =~= seq!['0', 'x']);
        lemma_hex_chars_shape(tail@);
    }
    text.append(digits.as_str());
    text
}

/// The address text of an uncompressed public key.
pub fn public_key_address(public_key: &[u8; 65]) -> (text: String)
    ensures
        text@ == address_text(address_bytes(public_key@)),
        is_address_text(text@),
{
    let coordinates = slice_range(public_key.as_slice(), 1, PUBLIC_KEY_BYTES);
    let digest = keccak256_digest(coordinates);
    digest_address(&digest)
}

/// The address text of a secret key given as raw bytes, or
/// `InvalidSecretKey` where the bytes are no valid key: no address is ever
/// made from invalid key material.
pub fn derive_address(secret: &[u8]) -> (derived: Result<String, WalletError>)
    ensures
        valid_secret_key(secret@) ==> (derived matches Ok(text) && text@ == secret_key_address(
            secret@,
        ) && is_address_text(text@)),
        !valid_secret_key(secret@) ==> derived == Err::<String, WalletError>(
            WalletError::InvalidSecretKey,
        ),
{
    match PrivateKey::parse_slice(secret) {
        Ok(key) => Ok(key.address()),
        Err(error) => Err(error),
    }
}

/// Every address text has 42 characters: `0x`, then 40 lowercase hexadecimal
/// digits, whatever 20 bytes it renders.
pub proof fn lemma_address_text_shape(bytes: Seq<u8>)
    requires
        bytes.len() == ADDRESS_BYTES,
    ensures
        is_address_text(address_text(bytes)),
{
    lemma_hex_chars_shape(bytes);
    let text = address_text(bytes);
    assert forall|i: int| 2 <= i < text.len() implies is_lower_hex(#[trigger] text[i]) by {
        assert(text[i] == hex_chars(bytes)[i - 2]);
    }
}

/// The part of `bytes` from `from` up to, not including, `to`.
fn slice_range(bytes: &[u8], from: usize, to: usize) -> (part: &[u8])
    requires
        from <= to <= bytes@.len(),
    ensures
        part@ == bytes@.subrange(from as int, to as int),
{
    &bytes[from..to]
}

/// `tiny_hderive::bip32::ExtendedPrivKey::derive` on a seed and a path in
/// text, handing out `secret()` of the key it arrives at, `None` where it
/// returns an error. The result depends on the two arguments alone.
#[verifier::external_body]
fn hd_derive(seed: &[u8], path: &str) -> (secret: Option<[u8; 32]>)
    ensures
        match secret {
            Some(bytes) => hd_secret(seed@, path@) == Some(bytes@),
            None => hd_secret(seed@, path@) is None,
        },
{
    match tiny_hderive::bip32::ExtendedPrivKey::derive(seed, path) {
        Ok(key) => Some(key.secret()),
        Err(_) => None,
    }
}

/// `libsecp256k1::SecretKey::parse_slice`, handing out `serialize()` of the
/// key it accepts. It rejects a slice that is not 32 bytes long, one that
/// spells zero, and one that spells a number at or above the order of the
/// curve; an accepted key serialises to the bytes it was parsed from.
#[verifier::external_body]
fn secp256k1_secret_key(bytes: &[u8]) -> (canonical: Option<[u8; 32]>)
    ensures
        canonical is Some <==> valid_secret_key(bytes@),
        canonical matches Some(key) ==> key@ == bytes@,
{
    match libsecp256k1::SecretKey::parse_slice(bytes) {
        Ok(key) => Some(key.serialize()),
        Err(_) => None,
    }
}

/// `libsecp256k1::PublicKey::from_secret_key` on the key that
/// `SecretKey::parse` accepts, handing out its uncompressed serialisation;
/// `None` where the secret is rejected, under the same rule as above.
#[verifier::external_body]
fn secp256k1_public(secret: &[u8; 32]) -> (public_key: Option<[u8; 65]>)
    ensures
        public_key is Some <==> valid_secret_key(secret@),
        public_key matches Some(point) ==> point@ == secp256k1_public_key(secret@),
{
    match libsecp256k1::SecretKey::parse(secret) {
        Ok(key) => Some(libsecp256k1::PublicKey::from_secret_key(&key).serialize()),
        Err(_) => None,
    }
}

/// `tiny_keccak::Keccak::v256`, fed `data` once and finalised into 32 bytes.
#[verifier::external_body]
fn keccak256_digest(data: &[u8]) -> (digest: [u8; 32])
    ensures
        digest@ == keccak256(data@),
{
    let mut digest = [0u8; 32];
    let mut hasher = <tiny_keccak::Keccak>::v256();
    tiny_keccak::Hasher::update(&mut hasher, data);
    tiny_keccak::Hasher::finalize(hasher, &mut digest);
    digest
}

} // verus!
