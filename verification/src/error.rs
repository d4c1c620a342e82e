//! The failures a command can end in.

use vstd::prelude::*;

verus! {

/// `std::io::Error`, carried through without being looked into.
#[verifier::external_type_specification]
#[verifier::external_body]
pub struct ExIoError(std::io::Error);

/// `serde_json::Error`, carried through without being looked into.
#[verifier::external_type_specification]
#[verifier::external_body]
pub struct ExJsonError(serde_json::Error);

/// `url::ParseError`, carried through without being looked into.
#[verifier::external_type_specification]
#[verifier::external_body]
pub struct ExUrlParseError(url::ParseError);

/// Why a command failed. Every failure ends the one command that met it and
/// nothing else.
#[derive(Debug)]
pub enum CommandError {
    /// The persisted channel record could not be read.
    Io(std::io::Error),
    /// The persisted channel record does not hold a channel.
    Json(serde_json::Error),
    /// The version-check endpoint is not a URL.
    Url(url::ParseError),
    /// The update service failed while checking, downloading or installing;
    /// the text is the service's own account of it.
    Updater(String),
    /// An install was asked for while no update was pending.
    NoPendingUpdate,
}

/// What a user is told when an install finds nothing to install.
pub const NO_PENDING_UPDATE: &'static str = "there is no pending update";

impl CommandError {
    /// The failure in words, as it is shown to the user. A failure that came
    /// from outside is told in the words of where it came from.
    pub fn message(&self) -> (text: String)
        ensures
            match self {
                CommandError::Io(failure) => vstd::string::to_string_from_display_ensures(
                    failure,
                    text,
                ),
                CommandError::Json(failure) => vstd::string::to_string_from_display_ensures(
                    failure,
                    text,
                ),
                CommandError::Url(failure) => vstd::string::to_string_from_display_ensures(
                    failure,
                    text,
                ),
                CommandError::Updater(account) => text@ == account@,
                CommandError::NoPendingUpdate => text@ == NO_PENDING_UPDATE@,
            },
    {
        match self {
            CommandError::Io(failure) => failure.to_string(),
            CommandError::Json(failure) => failure.to_string(),
            CommandError::Url(failure) => failure.to_string(),
            CommandError::Updater(account) => account.clone(),
            CommandError::NoPendingUpdate => String::from_str(NO_PENDING_UPDATE),
        }
    }
}

/// The text that a result holds where it is `Ok`.
pub open spec fn ok_text<E>(result: Result<String, E>) -> Option<Seq<char>> {
    match result {
        Ok(text) => Some(text@),
        Err(_) => None,
    }
}

} // verus!
