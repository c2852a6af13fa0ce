//! The encrypted keystore record and the password that protects it.
//!
//! The record is what the encryption of a private key produces: cipher,
//! key-derivation parameters, ciphertext and authentication code, all as they
//! stand in the keystore document. The encryption itself writes a file and
//! happens outside this library; the record is handed in afterwards.

use vstd::prelude::*;

verus! {

/// Characters of a keystore password, and of a temporary keystore name.
pub const PASSWORD_LENGTH: usize = 32;

/// Whether `c` is an ASCII letter or digit.
pub open spec fn is_alphanumeric(c: char) -> bool {
    ('0' <= c && c <= '9') || ('a' <= c && c <= 'z') || ('A' <= c && c <= 'Z')
}

/// The shape of a password: 32 ASCII letters and digits.
pub open spec fn is_password(text: Seq<char>) -> bool {
    &&& text.len() == PASSWORD_LENGTH
    &&& forall|i: int| 0 <= i < text.len() ==> is_alphanumeric(#[trigger] text[i])
}

/// Parameters of the key-derivation function.
#[derive(Debug, Clone, PartialEq, Eq)]
pub enum KdfParams {
    Pbkdf2 { c: u32, dklen: u8, prf: String, salt: String },
    Scrypt { dklen: u8, n: u32, p: u32, r: u32, salt: String },
}

/// What [`KdfParams`] holds, as plain values.
pub enum KdfParamsView {
    Pbkdf2 { c: u32, dklen: u8, prf: Seq<char>, salt: Seq<char> },
    Scrypt { dklen: u8, n: u32, p: u32, r: u32, salt: Seq<char> },
}

/// Parameters of the cipher.
#[derive(Debug, Clone, PartialEq, Eq)]
pub struct CipherParams {
    /// The initialisation vector, in hexadecimal.
    pub iv: String,
}

/// The cipher block of a keystore.
#[derive(Debug, Clone, PartialEq, Eq)]
pub struct Crypto {
    pub cipher: String,
    pub cipherparams: CipherParams,
    /// The encrypted private key, in hexadecimal.
    pub ciphertext: String,
    pub kdf: String,
    pub kdfparams: KdfParams,
    /// The authentication code over the ciphertext, in hexadecimal.
    pub mac: String,
}

/// What [`Crypto`] holds, as plain values.
pub struct CryptoView {
    pub cipher: Seq<char>,
    pub iv: Seq<char>,
    pub ciphertext: Seq<char>,
    pub kdf: Seq<char>,
    pub kdfparams: KdfParamsView,
    pub mac: Seq<char>,
}

/// An encrypted keystore: the cipher block, an identifier and a version.
#[derive(Debug, Clone, PartialEq, Eq)]
pub struct KeystoreRecord {
    pub crypto: Crypto,
    pub id: String,
    pub version: u8,
}

/// What [`KeystoreRecord`] holds, as plain values.
pub struct KeystoreRecordView {
    pub crypto: CryptoView,
    pub id: Seq<char>,
    pub version: u8,
}

impl View for KdfParams {
    type V = KdfParamsView;

    open spec fn view(&self) -> KdfParamsView {
        match *self {
            KdfParams::Pbkdf2 { c, dklen, prf, salt } => KdfParamsView::Pbkdf2 {
                c,
                dklen,
                prf: prf@,
                salt: salt@,
            },
            KdfParams::Scrypt { dklen, n, p, r, salt } => KdfParamsView::Scrypt {
                dklen,
                n,
                p,
                r,
                salt: salt@,
            },
        }
    }
}

impl View for Crypto {
    type V = CryptoView;

    open spec fn view(&self) -> CryptoView {
        CryptoView {
            cipher: self.cipher@,
            iv: self.cipherparams.iv@,
            ciphertext: self.ciphertext@,
            kdf: self.kdf@,
            kdfparams: self.kdfparams@,
            mac: self.mac@,
        }
    }
}

impl View for KeystoreRecord {
    type V = KeystoreRecordView;

    open spec fn view(&self) -> KeystoreRecordView {
        KeystoreRecordView { crypto: self.crypto@, id: self.id@, version: self.version }
    }
}

impl KdfParams {
    /// A copy with the same parameters.
    pub fn duplicate(&self) -> (copy: KdfParams)
        ensures
            copy@ == self@,
    {
        match self {
            KdfParams::Pbkdf2 { c, dklen, prf, salt } => KdfParams::Pbkdf2 {
                c: *c,
                dklen: *dklen,
                prf: prf.clone(),
                salt: salt.clone(),
            },
            KdfParams::Scrypt { dklen, n, p, r, salt } => KdfParams::Scrypt {
                dklen: *dklen,
                n: *n,
                p: *p,
                r: *r,
                salt: salt.clone(),
            },
        }
    }
}

impl Crypto {
    /// A copy with the same contents.
    pub fn duplicate(&self) -> (copy: Crypto)
        ensures
            copy@ == self@,
    {
        Crypto {
            cipher: self.cipher.clone(),
            cipherparams: CipherParams { iv: self.cipherparams.iv.clone() },
            ciphertext: self.ciphertext.clone(),
            kdf: self.kdf.clone(),
            kdfparams: self.kdfparams.duplicate(),
            mac: self.mac.clone(),
        }
    }
}

impl KeystoreRecord {
    /// A copy with the same contents.
    pub fn duplicate(&self) -> (copy: KeystoreRecord)
        ensures
            copy@ == self@,
    {
        KeystoreRecord {
            crypto: self.crypto.duplicate(),
            id: self.id.clone(),
            version: self.version,
        }
    }
}

/// A fresh random password for a keystore: 32 ASCII letters and digits. Two
/// calls need not agree; the shape is all that holds of every outcome.
pub fn keystore_password() -> (password: String)
    ensures
        is_password(password@),
{
    sample_alphanumeric(PASSWORD_LENGTH)
}

/// A fresh random name for the temporary keystore artifact, of the same
/// shape as a password.
pub fn temporary_name() -> (name: String)
    ensures
        is_password(name@),
{
    sample_alphanumeric(PASSWORD_LENGTH)
}

/// `rand::distributions::DistString::sample_string` of `Alphanumeric` with
/// the thread's generator: `len` characters, each drawn from the 62 ASCII
/// letters and digits. Which ones is random and not stated.
#[verifier::external_body]
fn sample_alphanumeric(len: usize) -> (text: String)
    ensures
        text@.len() == len,
        forall|i: int| 0 <= i < text@.len() ==> is_alphanumeric(#[trigger] text@[i]),
{
    rand::distributions::DistString::sample_string(
        &rand::distributions::Alphanumeric,
        &mut rand::thread_rng(),
        len,
    )
}

} // verus!
