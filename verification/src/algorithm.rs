//! The two supported derivation paths and the flags that select them.

use crate::error::WalletError;
use vstd::prelude::*;
use vstd::string::StringExecFns;

verus! {

/// Which node of the key tree holds the wallet's key.
#[derive(Debug, Clone, Copy, PartialEq, Eq, Structural)]
pub enum DerivationAlgorithm {
    /// `m/44'/60'/0'/0/0`: account 0, external chain, address index 0.
    Bip44Default,
    /// `m/44'/60'/0'/0`: the older four-level convention without an address index.
    MetamaskLegacy,
}

impl DerivationAlgorithm {
    /// The algorithm that a mode flag names, if it names one.
    pub open spec fn of_flag(flag: Seq<char>) -> Option<DerivationAlgorithm> {
        if flag == "--bip44"@ {
            Some(DerivationAlgorithm::Bip44Default)
        } else if flag == "--legacy"@ {
            Some(DerivationAlgorithm::MetamaskLegacy)
        } else {
            None
        }
    }

    /// The algorithm selected by an optional mode flag: the default without a
    /// flag, none for a flag that names no algorithm.
    pub open spec fn of_input(input: Option<String>) -> Option<DerivationAlgorithm> {
        match input {
            None => Some(DerivationAlgorithm::Bip44Default),
            Some(flag) => Self::of_flag(flag@),
        }
    }

    /// The derivation path of this algorithm, as text.
    pub open spec fn path_spec(self) -> Seq<char> {
        match self {
            DerivationAlgorithm::Bip44Default => "m/44'/60'/0'/0/0"@,
            DerivationAlgorithm::MetamaskLegacy => "m/44'/60'/0'/0"@,
        }
    }

    /// Whether `input` is one of the two mode flags.
    pub fn is_flag(input: &str) -> (known: bool)
        ensures
            known == Self::of_flag(input@) is Some,
    {
        let owned = String::from_str(input);
        owned == String::from_str("--bip44") || owned == String::from_str("--legacy")
    }

    /// The algorithm for an optional mode flag, or the error that keeps the
    /// unrecognised flag.
    pub fn try_from_input(input: Option<String>) -> (selected: Result<Self, WalletError>)
        ensures
            match Self::of_input(input) {
                Some(algorithm) => selected == Ok::<Self, WalletError>(algorithm),
                None => selected == Err::<Self, WalletError>(
                    WalletError::UnknownDerivationAlgorithm(input->0),
                ),
            },
    {
        match input {
            Some(flag) => {
                if flag == String::from_str("--bip44") {
                    Ok(DerivationAlgorithm::Bip44Default)
                } else if flag == String::from_str("--legacy") {
                    Ok(DerivationAlgorithm::MetamaskLegacy)
                } else {
                    Err(WalletError::UnknownDerivationAlgorithm(flag))
                }
            },
            None => Ok(DerivationAlgorithm::Bip44Default),
        }
    }

    /// The algorithm for an optional mode flag that is known to name one.
    pub fn from_input(input: Option<String>) -> (algorithm: Self)
        requires
            Self::of_input(input) is Some,
        ensures
            Self::of_input(input) == Some(algorithm),
    {
        match input {
            Some(flag) => {
                if flag == String::from_str("--bip44") {
                    DerivationAlgorithm::Bip44Default
                } else {
                    DerivationAlgorithm::MetamaskLegacy
                }
            },
            None => DerivationAlgorithm::Bip44Default,
        }
    }

    /// The derivation path of this algorithm.
    pub fn path(&self) -> (path: &'static str)
        ensures
            path@ == self.path_spec(),
    {
        match self {
            DerivationAlgorithm::Bip44Default => "m/44'/60'/0'/0/0",
            DerivationAlgorithm::MetamaskLegacy => "m/44'/60'/0'/0",
        }
    }
}

/// The two flags name different algorithms, and nothing else names one.
pub proof fn lemma_flags()
    ensures
        DerivationAlgorithm::of_flag("--bip44"@) == Some(DerivationAlgorithm::Bip44Default),
        DerivationAlgorithm::of_flag("--legacy"@) == Some(DerivationAlgorithm::MetamaskLegacy),
        forall|flag: Seq<char>|
            flag != "--bip44"@ && flag != "--legacy"@ ==> #[trigger] DerivationAlgorithm::of_flag(
                flag,
            ) is None,
{
    reveal_strlit("--bip44");
    reveal_strlit("--legacy");
    assert("--bip44"@[2] == 'b');
    assert("--legacy"@[2] == 'l');
}

/// The two algorithms name distinct nodes of the key tree: the default path
/// is the legacy path followed by one more level, the child with index 0.
pub proof fn lemma_paths_distinct()
    ensures
        DerivationAlgorithm::Bip44Default.path_spec()
            == DerivationAlgorithm::MetamaskLegacy.path_spec() + "/0"@,
        DerivationAlgorithm::Bip44Default.path_spec()
            != DerivationAlgorithm::MetamaskLegacy.path_spec(),
{
    reveal_strlit("m/44'/60'/0'/0/0");
    reveal_strlit("m/44'/60'/0'/0");
    reveal_strlit("/0");
    let long = "m/44'/60'/0'/0/0"@;
    let short = "m/44'/60'/0'/0"@;
    assert(long.len() == 16);
    assert(short.len() == 14);
    assert(long =~= short + "/0"@);
}

} // verus!
