//! Mnemonic phrases: fresh ones from the system's entropy, supplied ones
//! checked against the word list, and the seed that a phrase stretches to.

use crate::error::WalletError;
use vstd::prelude::*;

verus! {

/// Bytes of entropy behind a freshly generated phrase of 24 words.
pub const ENTROPY_BYTES: usize = 32;

/// Bytes of a seed.
pub const SEED_BYTES: usize = 64;

/// The English phrase that encodes `entropy` with its checksum: what
/// `bip39::Mnemonic::from_entropy` builds for an entropy of a valid length.
pub uninterp spec fn bip39_phrase(entropy: Seq<u8>) -> Seq<char>;

/// The entropy that `bip39::Mnemonic::from_phrase` recovers from `phrase`
/// under the English word list, `None` where it rejects the phrase.
pub uninterp spec fn bip39_entropy(phrase: Seq<char>) -> Option<Seq<u8>>;

/// The bytes of the seed that `bip39::Seed::new` stretches, with an empty
/// passphrase, from the mnemonic that `phrase` parses to.
pub uninterp spec fn bip39_seed(phrase: Seq<char>) -> Seq<u8>;

/// The entropy lengths, in bytes, that have a phrase: 128 to 256 bits in
/// steps of 32.
pub open spec fn valid_entropy_len(len: nat) -> bool {
    len == 16 || len == 20 || len == 24 || len == 28 || len == 32
}

/// What a mnemonic is: its words and the entropy they encode.
pub struct MnemonicView {
    pub phrase: Seq<char>,
    pub entropy: Seq<u8>,
}

/// A phrase of the English word list together with the entropy it encodes.
pub struct Mnemonic {
    phrase: String,
    entropy: Vec<u8>,
}

/// The 64 bytes that a mnemonic stretches to; the root of the key tree.
pub struct Seed {
    bytes: Vec<u8>,
}

impl View for Seed {
    type V = Seq<u8>;

    closed spec fn view(&self) -> Seq<u8> {
        self.bytes@
    }
}

impl Seed {
    /// A seed always has 64 bytes.
    #[verifier::type_invariant]
    pub closed spec fn wf(self) -> bool {
        self.bytes@.len() == SEED_BYTES
    }

    /// Accepts 64 bytes as a seed; `None` for any other length.
    pub fn from_slice(bytes: &[u8]) -> (made: Option<Seed>)
        ensures
            made is Some <==> bytes@.len() == SEED_BYTES,
            made matches Some(seed) ==> seed@ == bytes@,
    {
        if bytes.len() == SEED_BYTES {
            Some(Seed { bytes: slice_to_vec(bytes) })
        } else {
            None
        }
    }

    /// The bytes of the seed.
    pub fn as_bytes(&self) -> (bytes: &[u8])
        ensures
            bytes@ == self@,
            bytes@.len() == SEED_BYTES,
    {
        proof {
            use_type_invariant(self);
        }
        self.bytes.as_slice()
    }
}

impl View for Mnemonic {
    type V = MnemonicView;

    closed spec fn view(&self) -> MnemonicView {
        MnemonicView { phrase: self.phrase@, entropy: self.entropy@ }
    }
}

impl MnemonicView {
    /// The phrase is the one that encodes the entropy, and decodes to it.
    pub open spec fn wf(self) -> bool {
        &&& valid_entropy_len(self.entropy.len())
        &&& self.phrase == bip39_phrase(self.entropy)
        &&& bip39_entropy(self.phrase) == Some(self.entropy)
    }
}

impl Mnemonic {
    /// Every mnemonic is well formed: see [`MnemonicView::wf`].
    #[verifier::type_invariant]
    pub closed spec fn wf(self) -> bool {
        self@.wf()
    }

    /// The mnemonic that a phrase parses to: the entropy it decodes to, under
    /// the phrase that encodes that entropy. `None` for a phrase with a word
    /// outside the list, a wrong number of words or a wrong checksum.
    pub open spec fn parse_spec(phrase: Seq<char>) -> Option<MnemonicView> {
        match bip39_entropy(phrase) {
            Some(entropy) => Some(MnemonicView { phrase: bip39_phrase(entropy), entropy }),
            None => None,
        }
    }

    /// The mnemonic of an entropy of 16, 20, 24, 28 or 32 bytes; `None` for
    /// any other length.
    pub fn from_entropy(entropy: &[u8]) -> (made: Option<Mnemonic>)
        ensures
            made is Some <==> valid_entropy_len(entropy@.len()),
            made matches Some(mnemonic) ==> mnemonic@ == (MnemonicView {
                phrase: bip39_phrase(entropy@),
                entropy: entropy@,
            }) && mnemonic@.wf(),
    {
        if !has_valid_entropy_len(entropy) {
            return None;
        }
        match bip39_encode(entropy) {
            Some(phrase) => {
                let kept = slice_to_vec(entropy);
                Some(Mnemonic { phrase, entropy: kept })
            },
            None => None,
        }
    }

    /// Parses a phrase. It is rejected with `InvalidMnemonic` exactly when
    /// the word list or the checksum rejects it; otherwise the result is the
    /// mnemonic of the entropy that the phrase encodes.
    pub fn from_phrase(phrase: &str) -> (parsed: Result<Mnemonic, WalletError>)
        ensures
            match Self::parse_spec(phrase@) {
                Some(view) => parsed matches Ok(mnemonic) && mnemonic@ == view && view.wf(),
                None => parsed == Err::<Mnemonic, WalletError>(WalletError::InvalidMnemonic),
            },
    {
        match bip39_decode(phrase) {
            Some(entropy) => match bip39_encode(entropy.as_slice()) {
                Some(canonical) => Ok(Mnemonic { phrase: canonical, entropy }),
                None => Err(WalletError::InvalidMnemonic),
            },
            None => Err(WalletError::InvalidMnemonic),
        }
    }

    /// The words of the mnemonic, separated by single spaces.
    pub fn phrase(&self) -> (phrase: &str)
        ensures
            phrase@ == self@.phrase,
    {
        self.phrase.as_str()
    }

    /// The entropy that the words encode.
    pub fn entropy(&self) -> (entropy: &[u8])
        ensures
            entropy@ == self@.entropy,
    {
        self.entropy.as_slice()
    }

    /// The seed of this mnemonic under the empty passphrase.
    pub fn to_seed(&self) -> (seed: Seed)
        ensures
            seed@ == bip39_seed(self@.phrase),
            seed@.len() == SEED_BYTES,
    {
        proof {
            use_type_invariant(self);
        }
        match bip39_stretch(self.phrase.as_str()) {
            Some(bytes) => Seed { bytes },
            None => {
                proof {
                    assert(false);
                }
                Seed { bytes: Vec::new() }
            },
        }
    }
}

/// A fresh mnemonic of 24 words from 32 bytes of the system's entropy, or
/// `EntropyUnavailable` where the system supplies none.
pub fn create_new_seed() -> (fresh: Result<Mnemonic, WalletError>)
    ensures
        match fresh {
            Ok(mnemonic) => mnemonic@.wf() && mnemonic@.entropy.len() == ENTROPY_BYTES,
            Err(error) => error == WalletError::EntropyUnavailable,
        },
{
    match os_random_bytes(ENTROPY_BYTES) {
        Some(bytes) => {
            let made = Mnemonic::from_entropy(bytes.as_slice());
            match made {
                Some(mnemonic) => Ok(mnemonic),
                None => Err(WalletError::EntropyUnavailable),
            }
        },
        None => Err(WalletError::EntropyUnavailable),
    }
}

/// Parsing the phrase of a mnemonic gives back that mnemonic: the words and
/// the entropy are those of the mnemonic that was rendered.
pub proof fn lemma_phrase_round_trip(mnemonic: MnemonicView)
    requires
        mnemonic.wf(),
    ensures
        Mnemonic::parse_spec(mnemonic.phrase) == Some(mnemonic),
{
}

/// What parses is well formed, so parsing the words of a parsed mnemonic
/// changes nothing.
pub proof fn lemma_parse_idempotent(phrase: Seq<char>)
    requires
        Mnemonic::parse_spec(phrase) matches Some(view) && view.wf(),
    ensures
        Mnemonic::parse_spec(Mnemonic::parse_spec(phrase)->0.phrase) == Mnemonic::parse_spec(
            phrase,
        ),
{
}

/// Whether `entropy` has one of the five lengths that have a phrase.
fn has_valid_entropy_len(entropy: &[u8]) -> (valid: bool)
    ensures
        valid == valid_entropy_len(entropy@.len()),
{
    let len = entropy.len();
    len == 16 || len == 20 || len == 24 || len == 28 || len == 32
}

/// A copy of a byte slice.
fn slice_to_vec(bytes: &[u8]) -> (copy: Vec<u8>)
    ensures
        copy@ == bytes@,
{
    let mut copy: Vec<u8> = Vec::new();
    let mut i: usize = 0;
    while i < bytes.len()
        invariant
            i <= bytes.len(),
            copy@ == bytes@.take(i as int),
        decreases bytes.len() - i,
    {
        copy.push(bytes[i]);
        assert(bytes@.take(i as int).push(bytes@[i as int]) =~= bytes@.take(i + 1));
        i = i + 1;
    }
    assert(bytes@.take(bytes.len() as int) =~= bytes@);
    copy
}

/// `getrandom::getrandom` on a zeroed buffer of `len` bytes. On success the
/// buffer comes back, still `len` bytes long; nothing is claimed of the
/// bytes themselves, nor of when the system fails.
#[verifier::external_body]
fn os_random_bytes(len: usize) -> (filled: Option<Vec<u8>>)
    ensures
        filled matches Some(bytes) ==> bytes@.len() == len,
{
    let mut bytes = vec![0u8; len];
    match getrandom::getrandom(&mut bytes) {
        Ok(()) => Some(bytes),
        Err(_) => None,
    }
}

/// `bip39::Mnemonic::from_entropy` with the English word list, handing out
/// the phrase of the mnemonic it builds. It checks nothing but the length of
/// the entropy, which must be 128, 160, 192, 224 or 256 bits, so it succeeds
/// on every entropy that `requires` admits. The last clause is the round
/// trip of the encoding: `from_phrase` accepts the phrase built here and
/// recovers the entropy it was built from, as the crate's own `back_to_back`
/// test asserts.
#[verifier::external_body]
fn bip39_encode(entropy: &[u8]) -> (phrase: Option<String>)
    requires
        valid_entropy_len(entropy@.len()),
    ensures
        phrase is Some,
        phrase matches Some(words) ==> words@ == bip39_phrase(entropy@),
        phrase matches Some(words) ==> bip39_entropy(words@) == Some(entropy@),
{
    match bip39::Mnemonic::from_entropy(entropy, bip39::Language::English) {
        Ok(mnemonic) => Some(mnemonic.phrase().to_string()),
        Err(_) => None,
    }
}

/// `bip39::Mnemonic::from_phrase` with the English word list, handing out
/// the entropy of the mnemonic it builds, `None` where it returns an error.
/// The entropy of an accepted phrase is cut to the length that belongs to
/// its number of words, one of the five valid lengths.
#[verifier::external_body]
fn bip39_decode(phrase: &str) -> (entropy: Option<Vec<u8>>)
    ensures
        match entropy {
            Some(bytes) => bip39_entropy(phrase@) == Some(bytes@) && valid_entropy_len(
                bytes@.len(),
            ),
            None => bip39_entropy(phrase@) is None,
        },
{
    match bip39::Mnemonic::from_phrase(phrase, bip39::Language::English) {
        Ok(mnemonic) => Some(mnemonic.entropy().to_vec()),
        Err(_) => None,
    }
}

/// `bip39::Seed::new` with the empty passphrase, on the mnemonic that
/// `from_phrase` makes of `phrase`; `None` where `from_phrase` rejects the
/// phrase. The seed is the output of PBKDF2 into a buffer of 64 bytes.
#[verifier::external_body]
fn bip39_stretch(phrase: &str) -> (seed: Option<Vec<u8>>)
    ensures
        seed is Some <==> bip39_entropy(phrase@) is Some,
        seed matches Some(bytes) ==> bytes@ == bip39_seed(phrase@) && bytes@.len() == SEED_BYTES,
{
    match bip39::Mnemonic::from_phrase(phrase, bip39::Language::English) {
        Ok(mnemonic) => Some(bip39::Seed::new(&mnemonic, "").as_bytes().to_vec()),
        Err(_) => None,
    }
}

} // verus!
