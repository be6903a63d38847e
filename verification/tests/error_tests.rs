use salus::error::clap_or_error;
use salus::error::success;
use salus::error::Failure;
use salus::error::ParseFailure;
use salus::error::StoreError;

#[test]
fn success_works() {
    assert_eq!(0, success(()));
}

#[test]
fn clap_or_error_is_error() {
    assert_eq!(1, clap_or_error(Failure::Other));
}

#[test]
fn clap_or_error_is_help() {
    assert_eq!(0, clap_or_error(Failure::Parse(ParseFailure::DisplayHelp)));
}

#[test]
fn clap_or_error_is_version() {
    assert_eq!(0, clap_or_error(Failure::Parse(ParseFailure::DisplayVersion)));
}

#[test]
fn clap_or_error_is_other_clap_error() {
    assert_eq!(1, clap_or_error(Failure::Parse(ParseFailure::InvalidValue)));
}

#[test]
fn clap_or_error_every_other_kind_is_one() {
    let kinds = vec![
        ParseFailure::InvalidValue,
        ParseFailure::UnknownArgument,
        ParseFailure::InvalidSubcommand,
        ParseFailure::NoEquals,
        ParseFailure::ValueValidation,
        ParseFailure::TooManyValues,
        ParseFailure::TooFewValues,
        ParseFailure::WrongNumberOfValues,
        ParseFailure::ArgumentConflict,
        ParseFailure::MissingRequiredArgument,
        ParseFailure::MissingSubcommand,
        ParseFailure::InvalidUtf8,
        ParseFailure::DisplayHelpOnMissingArgumentOrSubcommand,
        ParseFailure::Io,
        ParseFailure::Format,
        ParseFailure::Unknown,
    ];
    for kind in kinds {
        assert_eq!(1, clap_or_error(Failure::Parse(kind)));
    }
}

#[test]
fn error_messages_are_fixed_texts() {
    assert_eq!(StoreError::ShareGeneration.message(), "Error generating shares");
    assert_eq!(StoreError::ShareCombination.message(), "Error combining shares");
    assert_eq!(StoreError::StoreNotUnlocked.message(), "Store not unlocked");
    assert_eq!(StoreError::Crypto.message(), "Unspecified");
    assert_eq!(StoreError::Corrupt.message(), "Unable to decode a stored value");
}

#[test]
fn storage_error_message_is_its_text() {
    let error = StoreError::Storage("disk full".to_string());
    assert_eq!(error.message(), "disk full");
}
