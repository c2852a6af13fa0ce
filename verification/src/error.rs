//! The ways in which producing a wallet can fail.

use vstd::prelude::*;
use vstd::string::StringExecFns;

verus! {

/// Every failure is final: no wallet is produced once one of these occurs.
#[derive(Debug, Clone, PartialEq, Eq)]
pub enum WalletError {
    /// The operating system could not supply random bytes.
    EntropyUnavailable,
    /// The phrase has a word outside the word list, a wrong number of words
    /// or a wrong checksum.
    InvalidMnemonic,
    /// The mode flag is neither `--bip44` nor `--legacy`; the flag is kept.
    UnknownDerivationAlgorithm(String),
    /// A node on the derivation path has no valid key.
    DerivationFailed,
    /// The private key is zero or not below the order of the curve.
    InvalidSecretKey,
    /// The keystore could not be encrypted, written or read back.
    KeystoreFailed,
}

impl WalletError {
    /// The text shown for this error.
    pub open spec fn message_spec(self) -> Seq<char> {
        match self {
            WalletError::EntropyUnavailable => "Failed to generate seed using getrandom(2)"@,
            WalletError::InvalidMnemonic => "Invalid mnemonic"@,
            WalletError::UnknownDerivationAlgorithm(flag) => "Unknown derivation algorithm: "@
                + flag@ + ", support only bip44 or legacy"@,
            WalletError::DerivationFailed => "Failed to derive the private key"@,
            WalletError::InvalidSecretKey => "Invalid secret key"@,
            WalletError::KeystoreFailed => "Can not render hot wallet keystore"@,
        }
    }

    /// A human-readable message that tells this error from the others.
    pub fn message(&self) -> (text: String)
        ensures
            text@ == self.message_spec(),
    {
        match self {
            WalletError::EntropyUnavailable => String::from_str(
                "Failed to generate seed using getrandom(2)",
            ),
            WalletError::InvalidMnemonic => String::from_str("Invalid mnemonic"),
            WalletError::UnknownDerivationAlgorithm(flag) => {
                let mut text = String::from_str("Unknown derivation algorithm: ");
                text.append(flag.as_str());
                text.append(", support only bip44 or legacy");
                text
            },
            WalletError::DerivationFailed => String::from_str("Failed to derive the private key"),
            WalletError::InvalidSecretKey => String::from_str("Invalid secret key"),
            WalletError::KeystoreFailed => String::from_str("Can not render hot wallet keystore"),
        }
    }
}

} // verus!
