use hot_wallet::algorithm::DerivationAlgorithm;
use hot_wallet::error::WalletError;
use hot_wallet::invocation::{classify, obtain_mnemonic, prepare, MnemonicSource, Request};
use hot_wallet::mnemonic::Mnemonic;

const ABANDON_ABOUT: &str =
    "abandon abandon abandon abandon abandon abandon abandon abandon abandon abandon abandon about";

fn text(value: &str) -> Option<String> {
    Some(value.to_string())
}

#[test]
fn no_arguments_ask_for_a_fresh_mnemonic() {
    assert_eq!(classify(None, None), Request { source: MnemonicSource::Fresh, flag: None });
}

#[test]
fn a_flag_as_first_argument_asks_for_a_fresh_mnemonic_under_it() {
    assert_eq!(
        classify(text("--legacy"), None),
        Request { source: MnemonicSource::Fresh, flag: text("--legacy") }
    );
    assert_eq!(
        classify(text("--bip44"), text("--legacy")),
        Request { source: MnemonicSource::Fresh, flag: text("--bip44") }
    );
}

#[test]
fn any_other_first_argument_is_a_phrase() {
    assert_eq!(
        classify(text(ABANDON_ABOUT), text("--legacy")),
        Request { source: MnemonicSource::Phrase(ABANDON_ABOUT.to_string()), flag: text("--legacy") }
    );
    assert_eq!(
        classify(text("--unknown"), None),
        Request { source: MnemonicSource::Phrase("--unknown".to_string()), flag: None }
    );
}

#[test]
fn a_second_argument_alone_is_the_flag() {
    assert_eq!(
        classify(None, text("--legacy")),
        Request { source: MnemonicSource::Fresh, flag: text("--legacy") }
    );
}

#[test]
fn a_supplied_phrase_is_parsed() {
    let source = MnemonicSource::Phrase(ABANDON_ABOUT.to_string());
    let mnemonic = obtain_mnemonic(&source).ok().unwrap();
    assert_eq!(mnemonic.phrase(), ABANDON_ABOUT);
    let bad = MnemonicSource::Phrase("abandon about".to_string());
    assert_eq!(obtain_mnemonic(&bad).err(), Some(WalletError::InvalidMnemonic));
}

#[test]
fn a_fresh_source_gives_24_words() {
    let mnemonic = obtain_mnemonic(&MnemonicSource::Fresh).ok().unwrap();
    assert_eq!(mnemonic.phrase().split(' ').count(), 24);
}

#[test]
fn importing_abandon_about_gives_the_golden_wallet() {
    for second in [None, text("--bip44")] {
        let ready = prepare(text(ABANDON_ABOUT), second).ok().unwrap();
        assert_eq!(ready.mnemonic.phrase(), ABANDON_ABOUT);
        assert_eq!(ready.algorithm, DerivationAlgorithm::Bip44Default);
        assert_eq!(
            ready.secret_key.to_hex(),
            "1ab42cc412b618bdea3a599e3c9bae199ebf030895b039e9db1e30dafb12b727"
        );
        assert_eq!(ready.secret_key.address(), "0x9858effd232b4033e47d90003d41ec34ecaeda94");
        assert_eq!(ready.password.len(), 32);
        assert!(ready.password.chars().all(|c| c.is_ascii_alphanumeric()));
    }
}

#[test]
fn importing_under_the_legacy_flag_walks_the_legacy_path() {
    let legacy = prepare(text(ABANDON_ABOUT), text("--legacy")).ok().unwrap();
    let default = prepare(text(ABANDON_ABOUT), None).ok().unwrap();
    assert_eq!(legacy.algorithm, DerivationAlgorithm::MetamaskLegacy);
    assert_eq!(legacy.mnemonic.phrase(), default.mnemonic.phrase());
    assert_ne!(legacy.secret_key.serialize(), default.secret_key.serialize());
    assert_ne!(legacy.secret_key.address(), default.secret_key.address());
}

#[test]
fn an_unknown_flag_as_second_argument_is_an_error() {
    let error = prepare(text(ABANDON_ABOUT), text("--unknown")).err().unwrap();
    assert_eq!(error, WalletError::UnknownDerivationAlgorithm("--unknown".to_string()));
    assert!(error.message().to_lowercase().contains("unknown derivation algorithm"));
    assert!(error.message().contains("--unknown"));
}

#[test]
fn an_invalid_phrase_is_reported_before_an_unknown_flag() {
    assert_eq!(
        prepare(text("abandon about"), text("--unknown")).err(),
        Some(WalletError::InvalidMnemonic)
    );
    assert_eq!(prepare(text("--unknown"), None).err(), Some(WalletError::InvalidMnemonic));
}

#[test]
fn an_unknown_flag_without_a_phrase_is_an_error() {
    assert_eq!(
        prepare(None, text("--unknown")).err(),
        Some(WalletError::UnknownDerivationAlgorithm("--unknown".to_string()))
    );
}

#[test]
fn a_flag_alone_gives_a_fresh_wallet_under_it() {
    let ready = prepare(text("--legacy"), text("ignored")).ok().unwrap();
    assert_eq!(ready.algorithm, DerivationAlgorithm::MetamaskLegacy);
    assert_eq!(ready.mnemonic.phrase().split(' ').count(), 24);
    let again = Mnemonic::from_phrase(ready.mnemonic.phrase()).ok().unwrap();
    assert_eq!(again.entropy(), ready.mnemonic.entropy());
}

#[test]
fn two_runs_without_arguments_differ() {
    let first = prepare(None, None).ok().unwrap();
    let second = prepare(None, None).ok().unwrap();
    assert_eq!(first.algorithm, DerivationAlgorithm::Bip44Default);
    assert_eq!(second.algorithm, DerivationAlgorithm::Bip44Default);
    assert_ne!(first.mnemonic.phrase(), second.mnemonic.phrase());
    assert_ne!(first.secret_key.serialize(), second.secret_key.serialize());
    assert_ne!(first.secret_key.address(), second.secret_key.address());
    assert_ne!(first.password, second.password);
}

#[test]
fn two_runs_on_the_same_phrase_agree() {
    let first = prepare(text(ABANDON_ABOUT), text("--legacy")).ok().unwrap();
    let second = prepare(text(ABANDON_ABOUT), text("--legacy")).ok().unwrap();
    assert_eq!(first.mnemonic.phrase(), second.mnemonic.phrase());
    assert_eq!(first.mnemonic.to_seed().as_bytes(), second.mnemonic.to_seed().as_bytes());
    assert_eq!(first.secret_key.serialize(), second.secret_key.serialize());
    assert_eq!(first.secret_key.address(), second.secret_key.address());
}
