use ratatui::style::ParseColorError;
use std::string::FromUtf8Error;
use vstd::prelude::*;
use vstd::std_specs::convert::FromSpecImpl;

verus! {

/// `std::io::Error`, carried as it is.
#[verifier::external_type_specification]
#[verifier::external_body]
pub struct ExIoError(std::io::Error);

/// `std::string::FromUtf8Error`, carried as it is.
#[verifier::external_type_specification]
#[verifier::external_body]
pub struct ExFromUtf8Error(std::string::FromUtf8Error);

/// `toml::de::Error`, carried as it is.
#[verifier::external_type_specification]
#[verifier::external_body]
pub struct ExTomlError(toml::de::Error);

/// `ratatui::style::ParseColorError`, carried as it is.
#[verifier::external_type_specification]
#[verifier::external_body]
pub struct ExParseColorError(ratatui::style::ParseColorError);

/// What can go wrong around the navigator.
#[derive(Debug)]
pub enum AppError {
    /// The backend could not be run at all.
    Io(std::io::Error),
    /// The backend ran and reported failure; holds its exit status as text.
    Command(String),
    /// The backend's output is not UTF-8.
    Utf8(FromUtf8Error),
    /// The configuration is not valid TOML.
    Toml(toml::de::Error),
    /// The configuration names a colour that does not exist.
    ParseColor(ParseColorError),
    /// The configuration could not be used.
    Config(String),
    /// The backend's output is text of an unexpected form.
    Parse(String),
}

impl From<std::io::Error> for AppError {
    fn from(e: std::io::Error) -> (err: AppError) {
        AppError::Io(e)
    }
}

impl FromSpecImpl<std::io::Error> for AppError {
    open spec fn obeys_from_spec() -> bool {
        true
    }

    open spec fn from_spec(e: std::io::Error) -> AppError {
        AppError::Io(e)
    }
}

impl From<FromUtf8Error> for AppError {
    fn from(e: FromUtf8Error) -> (err: AppError) {
        AppError::Utf8(e)
    }
}

impl FromSpecImpl<FromUtf8Error> for AppError {
    open spec fn obeys_from_spec() -> bool {
        true
    }

    open spec fn from_spec(e: FromUtf8Error) -> AppError {
        AppError::Utf8(e)
    }
}

impl From<toml::de::Error> for AppError {
    fn from(e: toml::de::Error) -> (err: AppError) {
        AppError::Toml(e)
    }
}

impl FromSpecImpl<toml::de::Error> for AppError {
    open spec fn obeys_from_spec() -> bool {
        true
    }

    open spec fn from_spec(e: toml::de::Error) -> AppError {
        AppError::Toml(e)
    }
}

impl From<ParseColorError> for AppError {
    fn from(e: ParseColorError) -> (err: AppError) {
        AppError::ParseColor(e)
    }
}

impl FromSpecImpl<ParseColorError> for AppError {
    open spec fn obeys_from_spec() -> bool {
        true
    }

    open spec fn from_spec(e: ParseColorError) -> AppError {
        AppError::ParseColor(e)
    }
}

} // verus!
