//! Error taxonomy of the store and the process exit codes derived from it.

use vstd::prelude::*;

verus! {

/// Why an operation of the store failed.
#[derive(Clone, Debug, PartialEq, Eq)]
pub enum StoreError {
    /// No shares could be made with the number of shares and the threshold
    /// that were asked for.
    ShareGeneration,
    /// The shares handed in do not combine to a key.
    ShareCombination,
    /// The store is locked.
    StoreNotUnlocked,
    /// Sealing or opening failed, or the random source did.
    Crypto,
    /// A row of the database does not hold what its table keeps.
    Corrupt,
    /// The database failed, and what it said.
    Storage(String),
}

/// What a [`StoreError`] says, with the text as a sequence of characters.
pub enum StoreErrorView {
    ShareGeneration,
    ShareCombination,
    StoreNotUnlocked,
    Crypto,
    Corrupt,
    Storage(Seq<char>),
}

impl View for StoreError {
    type V = StoreErrorView;

    open spec fn view(&self) -> StoreErrorView {
        match self {
            StoreError::ShareGeneration => StoreErrorView::ShareGeneration,
            StoreError::ShareCombination => StoreErrorView::ShareCombination,
            StoreError::StoreNotUnlocked => StoreErrorView::StoreNotUnlocked,
            StoreError::Crypto => StoreErrorView::Crypto,
            StoreError::Corrupt => StoreErrorView::Corrupt,
            StoreError::Storage(text) => StoreErrorView::Storage(text@),
        }
    }
}

/// The text that describes `error` to a client.
pub open spec fn spec_message(error: StoreErrorView) -> Seq<char> {
    match error {
        StoreErrorView::ShareGeneration => "Error generating shares"@,
        StoreErrorView::ShareCombination => "Error combining shares"@,
        StoreErrorView::StoreNotUnlocked => "Store not unlocked"@,
        StoreErrorView::Crypto => "Unspecified"@,
        StoreErrorView::Corrupt => "Unable to decode a stored value"@,
        StoreErrorView::Storage(text) => text,
    }
}

impl StoreError {
    /// The text that describes this error to a client.
    pub fn message(&self) -> (text: String)
        ensures
            text@ == spec_message(self@),
    {
        match self {
            StoreError::ShareGeneration => "Error generating shares".to_owned(),
            StoreError::ShareCombination => "Error combining shares".to_owned(),
            StoreError::StoreNotUnlocked => "Store not unlocked".to_owned(),
            StoreError::Crypto => "Unspecified".to_owned(),
            StoreError::Corrupt => "Unable to decode a stored value".to_owned(),
            StoreError::Storage(text) => text.clone(),
        }
    }
}

/// What kind of failure the command-line parser reported.
#[derive(Clone, Copy, Debug, PartialEq, Eq, Structural)]
pub enum ParseFailure {
    /// The user asked for the help text.
    DisplayHelp,
    /// The user asked for the version.
    DisplayVersion,
    /// An argument has a value that is not accepted.
    InvalidValue,
    /// An argument is not known.
    UnknownArgument,
    /// A subcommand is not known.
    InvalidSubcommand,
    /// An argument that needs `=` was given without it.
    NoEquals,
    /// A value did not pass its validation.
    ValueValidation,
    /// An argument was given too many values.
    TooManyValues,
    /// An argument was given too few values.
    TooFewValues,
    /// An argument was given another number of values than it takes.
    WrongNumberOfValues,
    /// Two arguments cannot be used together.
    ArgumentConflict,
    /// A required argument is missing.
    MissingRequiredArgument,
    /// A required subcommand is missing.
    MissingSubcommand,
    /// An argument is not valid UTF-8.
    InvalidUtf8,
    /// The help text was shown because nothing was given.
    DisplayHelpOnMissingArgumentOrSubcommand,
    /// Reading or writing failed.
    Io,
    /// Formatting failed.
    Format,
    /// A kind that this list does not know.
    Unknown,
}

/// What ended a run: a failure of the command-line parser, or anything
/// else.
#[derive(Clone, Copy, Debug, PartialEq, Eq, Structural)]
pub enum Failure {
    /// The command line could not be parsed, or asked for help or the
    /// version.
    Parse(ParseFailure),
    /// Any other error.
    Other,
}

/// The exit code of a run that ended with `failure`.
pub open spec fn spec_exit_code(failure: Failure) -> i32 {
    match failure {
        Failure::Parse(ParseFailure::DisplayHelp) => 0,
        Failure::Parse(ParseFailure::DisplayVersion) => 0,
        _ => 1,
    }
}

/// The exit code of a run that ended with `failure`: 0 where the user asked
/// for the help text or the version, 1 otherwise.
pub fn clap_or_error(failure: Failure) -> (code: i32)
    ensures
        code == spec_exit_code(failure),
{
    match failure {
        Failure::Parse(kind) => match kind {
            ParseFailure::DisplayHelp => 0,
            ParseFailure::DisplayVersion => 0,
            _ => 1,
        },
        Failure::Other => 1,
    }
}

/// Exit code of a run that ended without error.
pub fn success(_unit: ()) -> (code: i32)
    ensures
        code == 0,
{
    0
}

} // verus!
