//! The wallet record that a run produces, and its reduced view that shows
//! the keystore without the secrets.

use crate::hex::{hex_chars, is_lower_hex};
use crate::keys::{is_address_text, secret_key_address, PrivateKey, ADDRESS_LENGTH};
use crate::keystore::{Crypto, CryptoView, KeystoreRecord, KeystoreRecordView};
use crate::mnemonic::Mnemonic;
use vstd::prelude::*;
use vstd::string::StringExecFns;

verus! {

/// Whether `text` begins with the two characters `0x`.
pub open spec fn starts_with_0x(text: Seq<char>) -> bool {
    text.len() >= 2 && text[0] == '0' && text[1] == 'x'
}

/// `text` without its leading `0x`, and without any further `0x` that
/// directly follows.
pub open spec fn trim_hex_prefix(text: Seq<char>) -> Seq<char>
    decreases text.len(),
{
    if starts_with_0x(text) {
        trim_hex_prefix(text.skip(2))
    } else {
        text
    }
}

/// Everything a run produces: the keystore and the password that opens it,
/// the private key in hexadecimal, the words, and the address with `0x`.
#[derive(Debug, Clone, PartialEq, Eq)]
pub struct WalletOutput {
    pub keystore: KeystoreRecord,
    pub password: String,
    pub secretkey: String,
    pub mnemonic: String,
    pub address: String,
}

/// What [`WalletOutput`] holds, as plain values.
pub struct WalletOutputView {
    pub keystore: KeystoreRecordView,
    pub password: Seq<char>,
    pub secretkey: Seq<char>,
    pub mnemonic: Seq<char>,
    pub address: Seq<char>,
}

/// The reduced view of a wallet: the address without `0x`, and of the
/// keystore the cipher block, the identifier and the version. It holds no
/// password, no private key and no words.
#[derive(Debug, Clone, PartialEq, Eq)]
pub struct EcdsaKey {
    pub address: String,
    pub crypto: Crypto,
    pub id: String,
    pub version: u8,
}

/// What [`EcdsaKey`] holds, as plain values.
pub struct EcdsaKeyView {
    pub address: Seq<char>,
    pub crypto: CryptoView,
    pub id: Seq<char>,
    pub version: u8,
}

impl View for WalletOutput {
    type V = WalletOutputView;

    open spec fn view(&self) -> WalletOutputView {
        WalletOutputView {
            keystore: self.keystore@,
            password: self.password@,
            secretkey: self.secretkey@,
            mnemonic: self.mnemonic@,
            address: self.address@,
        }
    }
}

impl View for EcdsaKey {
    type V = EcdsaKeyView;

    open spec fn view(&self) -> EcdsaKeyView {
        EcdsaKeyView {
            address: self.address@,
            crypto: self.crypto@,
            id: self.id@,
            version: self.version,
        }
    }
}

impl WalletOutputView {
    /// The reduced view of this wallet.
    pub open spec fn ecdsa_key(self) -> EcdsaKeyView {
        EcdsaKeyView {
            address: trim_hex_prefix(self.address),
            crypto: self.keystore.crypto,
            id: self.keystore.id,
            version: self.keystore.version,
        }
    }
}

impl WalletOutput {
    /// Puts a wallet together from the encrypted keystore, the password it
    /// was encrypted under, the private key and the mnemonic. The key is
    /// rendered in hexadecimal, the address is the one of the key, and the
    /// words are those of the mnemonic.
    pub fn assemble(
        keystore: KeystoreRecord,
        password: String,
        secret_key: &PrivateKey,
        mnemonic: &Mnemonic,
    ) -> (wallet: WalletOutput)
        ensures
            wallet@ == (WalletOutputView {
                keystore: keystore@,
                password: password@,
                secretkey: hex_chars(secret_key@),
                mnemonic: mnemonic@.phrase,
                address: secret_key_address(secret_key@),
            }),
            is_address_text(wallet@.address),
    {
        let secretkey = secret_key.to_hex();
        let address = secret_key.address();
        let words = String::from_str(mnemonic.phrase());
        WalletOutput { keystore, password, secretkey, mnemonic: words, address }
    }

    /// The reduced view of this wallet: see [`EcdsaKey`].
    pub fn ecdsa_key(&self) -> (key: EcdsaKey)
        ensures
            key@ == self@.ecdsa_key(),
    {
        EcdsaKey {
            address: String::from_str(strip_hex_prefix(self.address.as_str())),
            crypto: self.keystore.crypto.duplicate(),
            id: self.keystore.id.clone(),
            version: self.keystore.version,
        }
    }
}

/// `text` without its leading `0x`, however often it is repeated.
pub fn strip_hex_prefix(text: &str) -> (rest: &str)
    ensures
        rest@ == trim_hex_prefix(text@),
{
    let len = text.unicode_len();
    let mut start: usize = 0;
    let mut more = true;
    assert(text@.skip(0) =~= text@);
    while more && len - start >= 2
        invariant
            start <= len,
            len == text@.len(),
            trim_hex_prefix(text@) == trim_hex_prefix(text@.skip(start as int)),
            !more ==> !starts_with_0x(text@.skip(start as int)),
        decreases len - start + (if more { 1nat } else { 0nat }),
    {
        if text.get_char(start) == '0' && text.get_char(start + 1) == 'x' {
            assert(text@.skip(start as int).skip(2) =~= text@.skip(start + 2));
            start = start + 2;
        } else {
            more = false;
        }
    }
    assert(text@.skip(start as int) =~= text@.subrange(start as int, len as int));
    text.substring_char(start, len)
}

/// An address text loses exactly its first two characters: what is left is
/// its 40 hexadecimal digits.
pub proof fn lemma_trim_address_text(text: Seq<char>)
    requires
        is_address_text(text),
    ensures
        trim_hex_prefix(text) == text.skip(2),
        trim_hex_prefix(text).len() == ADDRESS_LENGTH,
        forall|i: int|
            0 <= i < trim_hex_prefix(text).len() ==> is_lower_hex(
                #[trigger] trim_hex_prefix(text)[i],
            ),
{
    reveal_with_fuel(trim_hex_prefix, 2);
    let rest = text.skip(2);
    assert(rest[1] == text[3]);
    assert(is_lower_hex(text[3]));
    assert(!starts_with_0x(rest));
    assert forall|i: int| 0 <= i < rest.len() implies is_lower_hex(#[trigger] rest[i]) by {
        assert(rest[i] == text[i + 2]);
    }
}

/// Trimming leaves nothing to trim.
pub proof fn lemma_trim_idempotent(text: Seq<char>)
    ensures
        !starts_with_0x(trim_hex_prefix(text)),
        trim_hex_prefix(trim_hex_prefix(text)) == trim_hex_prefix(text),
    decreases text.len(),
{
    if starts_with_0x(text) {
        lemma_trim_idempotent(text.skip(2));
    }
}

} // verus!
