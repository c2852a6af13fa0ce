//! From the two optional arguments of a run to the key material of the
//! wallet: which mnemonic to use, which path to walk, and the private key at
//! its end.

use crate::algorithm::DerivationAlgorithm;
use crate::error::WalletError;
use crate::keys::{derive_secret, hd_secret, secret_key_address, valid_secret_key, PrivateKey};
use crate::keystore::{is_password, keystore_password};
use crate::mnemonic::{bip39_seed, create_new_seed, Mnemonic, MnemonicView, ENTROPY_BYTES};
use vstd::prelude::*;

verus! {

/// Where the mnemonic of a run comes from.
#[derive(Debug, Clone, PartialEq, Eq)]
pub enum MnemonicSource {
    /// Fresh entropy from the system.
    Fresh,
    /// The phrase that the caller supplied.
    Phrase(String),
}

/// What the arguments of a run ask for: the source of the mnemonic and the
/// optional mode flag that selects the derivation path.
#[derive(Debug, Clone, PartialEq, Eq)]
pub struct Request {
    pub source: MnemonicSource,
    pub flag: Option<String>,
}

/// The key material of a wallet, ready for the keystore to be encrypted.
pub struct Prepared {
    pub mnemonic: Mnemonic,
    pub algorithm: DerivationAlgorithm,
    pub secret_key: PrivateKey,
    pub password: String,
}

/// How two optional arguments are read. A first argument that is a mode flag
/// asks for a fresh mnemonic under that flag, and the second argument is
/// ignored. Any other first argument is a phrase to import, under the second
/// argument as flag. Without a first argument the mnemonic is fresh and the
/// second argument, if any, is the flag.
pub open spec fn classify_spec(first: Option<String>, second: Option<String>) -> Request {
    match first {
        Some(text) => if DerivationAlgorithm::of_flag(text@) is Some {
            Request { source: MnemonicSource::Fresh, flag: Some(text) }
        } else {
            Request { source: MnemonicSource::Phrase(text), flag: second }
        },
        None => Request { source: MnemonicSource::Fresh, flag: second },
    }
}

/// The private key of a phrase under an algorithm: the secret at the end of
/// the algorithm's path in the key tree of the phrase's seed, which must be
/// a valid key of the curve.
pub open spec fn wallet_key_spec(phrase: Seq<char>, algorithm: DerivationAlgorithm) -> Result<
    Seq<u8>,
    WalletError,
> {
    match hd_secret(bip39_seed(phrase), algorithm.path_spec()) {
        None => Err(WalletError::DerivationFailed),
        Some(secret) => if valid_secret_key(secret) {
            Ok(secret)
        } else {
            Err(WalletError::InvalidSecretKey)
        },
    }
}

/// What importing a phrase under an optional flag comes to: the mnemonic,
/// the algorithm and the private key, or the first error on the way. The
/// phrase is judged before the flag, the flag before the key.
pub open spec fn import_spec(phrase: Seq<char>, flag: Option<String>) -> Result<
    (MnemonicView, DerivationAlgorithm, Seq<u8>),
    WalletError,
> {
    match Mnemonic::parse_spec(phrase) {
        None => Err(WalletError::InvalidMnemonic),
        Some(mnemonic) => match DerivationAlgorithm::of_input(flag) {
            None => Err(WalletError::UnknownDerivationAlgorithm(flag->0)),
            Some(algorithm) => match wallet_key_spec(mnemonic.phrase, algorithm) {
                Err(error) => Err(error),
                Ok(secret) => Ok((mnemonic, algorithm, secret)),
            },
        },
    }
}

/// Reads the two optional arguments of a run.
pub fn classify(first: Option<String>, second: Option<String>) -> (request: Request)
    ensures
        request == classify_spec(first, second),
{
    match first {
        Some(text) => {
            if DerivationAlgorithm::is_flag(text.as_str()) {
                Request { source: MnemonicSource::Fresh, flag: Some(text) }
            } else {
                Request { source: MnemonicSource::Phrase(text), flag: second }
            }
        },
        None => Request { source: MnemonicSource::Fresh, flag: second },
    }
}

/// The mnemonic of a run. A supplied phrase is parsed, and rejected with
/// `InvalidMnemonic` exactly when it does not parse. A fresh mnemonic has 24
/// words from 32 bytes of entropy, and fails only for want of entropy.
pub fn obtain_mnemonic(source: &MnemonicSource) -> (obtained: Result<Mnemonic, WalletError>)
    ensures
        match *source {
            MnemonicSource::Phrase(text) => match Mnemonic::parse_spec(text@) {
                Some(view) => obtained matches Ok(mnemonic) && mnemonic@ == view && view.wf(),
                None => obtained == Err::<Mnemonic, WalletError>(WalletError::InvalidMnemonic),
            },
            MnemonicSource::Fresh => match obtained {
                Ok(mnemonic) => mnemonic@.wf() && mnemonic@.entropy.len() == ENTROPY_BYTES,
                Err(error) => error == WalletError::EntropyUnavailable,
            },
        },
{
    match source {
        MnemonicSource::Phrase(text) => Mnemonic::from_phrase(text.as_str()),
        MnemonicSource::Fresh => create_new_seed(),
    }
}

/// The private key of a mnemonic under an algorithm: its seed is stretched,
/// the path is walked, and the secret at its end is checked against the
/// curve.
pub fn derive_private_key(mnemonic: &Mnemonic, algorithm: DerivationAlgorithm) -> (derived: Result<
    PrivateKey,
    WalletError,
>)
    ensures
        match wallet_key_spec(mnemonic@.phrase, algorithm) {
            Ok(secret) => derived matches Ok(key) && key@ == secret,
            Err(error) => derived == Err::<PrivateKey, WalletError>(error),
        },
{
    let seed = mnemonic.to_seed();
    match derive_secret(&seed, algorithm) {
        Ok(secret) => PrivateKey::parse_slice(secret.as_slice()),
        Err(error) => Err(error),
    }
}

/// Everything that precedes the encryption of the keystore: reads the
/// arguments, obtains the mnemonic, selects the algorithm, derives the
/// private key and draws the keystore password.
///
/// For a supplied phrase the outcome is fixed by the arguments: see
/// [`import_spec`]. For a fresh mnemonic the words are random; the algorithm
/// is the one the flag names, the key is the one of the words, and an
/// unknown flag always ends in an error.
pub fn prepare(first: Option<String>, second: Option<String>) -> (prepared: Result<
    Prepared,
    WalletError,
>)
    ensures
        prepared matches Ok(ready) ==> {
            &&& ready.mnemonic@.wf()
            &&& DerivationAlgorithm::of_input(classify_spec(first, second).flag) == Some(
                ready.algorithm,
            )
            &&& wallet_key_spec(ready.mnemonic@.phrase, ready.algorithm) == Ok::<
                Seq<u8>,
                WalletError,
            >(ready.secret_key@)
            &&& is_password(ready.password@)
        },
        match classify_spec(first, second).source {
            MnemonicSource::Phrase(text) => match import_spec(
                text@,
                classify_spec(first, second).flag,
            ) {
                Ok((mnemonic, algorithm, secret)) => prepared matches Ok(ready)
                    && ready.mnemonic@ == mnemonic && ready.algorithm == algorithm
                    && ready.secret_key@ == secret,
                Err(error) => prepared == Err::<Prepared, WalletError>(error),
            },
            MnemonicSource::Fresh => match prepared {
                Ok(ready) => ready.mnemonic@.entropy.len() == ENTROPY_BYTES,
                Err(error) => {
                    ||| error == WalletError::EntropyUnavailable
                    ||| DerivationAlgorithm::of_input(second) is None && error
                        == WalletError::UnknownDerivationAlgorithm(second->0)
                    ||| DerivationAlgorithm::of_input(classify_spec(first, second).flag)
                        is Some && (error == WalletError::DerivationFailed || error
                        == WalletError::InvalidSecretKey)
                },
            },
        },
{
    let request = classify(first, second);
    let mnemonic = match obtain_mnemonic(&request.source) {
        Ok(mnemonic) => mnemonic,
        Err(error) => {
            return Err(error);
        },
    };
    let algorithm = match DerivationAlgorithm::try_from_input(request.flag) {
        Ok(algorithm) => algorithm,
        Err(error) => {
            return Err(error);
        },
    };
    let secret_key = match derive_private_key(&mnemonic, algorithm) {
        Ok(secret_key) => secret_key,
        Err(error) => {
            return Err(error);
        },
    };
    let password = keystore_password();
    Ok(Prepared { mnemonic, algorithm, secret_key, password })
}

/// Derivation is a function of the words and the path: two runs on the same
/// mnemonic and algorithm that both meet the contracts of this library end
/// with the same seed and the same verdict, and where that is a key, with
/// the same key and the same address.
pub proof fn lemma_derivation_deterministic(
    mnemonic: MnemonicView,
    algorithm: DerivationAlgorithm,
    first_seed: Seq<u8>,
    second_seed: Seq<u8>,
    first_key: Result<Seq<u8>, WalletError>,
    second_key: Result<Seq<u8>, WalletError>,
    first_address: Seq<char>,
    second_address: Seq<char>,
)
    requires
        first_seed == bip39_seed(mnemonic.phrase),
        second_seed == bip39_seed(mnemonic.phrase),
        first_key == wallet_key_spec(mnemonic.phrase, algorithm),
        second_key == wallet_key_spec(mnemonic.phrase, algorithm),
        first_key matches Ok(secret) ==> first_address == secret_key_address(secret),
        second_key matches Ok(secret) ==> second_address == secret_key_address(secret),
    ensures
        first_seed == second_seed,
        first_key == second_key,
        first_key is Ok ==> first_address == second_address,
{
}

/// A phrase that does not parse never yields a wallet, whatever the flag.
pub proof fn lemma_rejected_phrase_yields_nothing(phrase: Seq<char>, flag: Option<String>)
    requires
        Mnemonic::parse_spec(phrase) is None,
    ensures
        import_spec(phrase, flag) == Err::<
            (MnemonicView, DerivationAlgorithm, Seq<u8>),
            WalletError,
        >(WalletError::InvalidMnemonic),
{
}

} // verus!
