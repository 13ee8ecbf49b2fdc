//! The closed set of ways in which loading a dictionary can fail.

use crate::language::language_name;
use hyphenation_commons::Language;
use vstd::prelude::*;
use vstd::std_specs::convert::FromSpecImpl;

verus! {

/// What the codec reports when bytes are not a well-formed record. It is
/// carried inside [`Error::Deserialization`] and never inspected.
#[verifier::external_type_specification]
#[verifier::external_body]
pub struct ExCodecErrorKind(bincode::ErrorKind);

/// The failure of opening or reading a byte source. It is carried inside
/// [`Error::IO`] and never inspected.
#[verifier::external_type_specification]
#[verifier::external_body]
pub struct ExIoError(std::io::Error);

/// Failure modes of dictionary loading.
#[derive(Debug)]
pub enum Error {
    /// The dictionary could not be deserialized.
    Deserialization(bincode::Error),
    /// The dictionary could not be read.
    IO(std::io::Error),
    /// The loaded dictionary is for the wrong language.
    LanguageMismatch { expected: Language, found: Language },
    /// The embedded dictionary could not be retrieved.
    Resource,
}

/// The kind of an [`Error`] without the wrapped cause: what a caller matches
/// on to choose a fallback.
#[derive(Clone, Copy, Debug, PartialEq, Eq)]
pub enum Failure {
    Deserialization,
    IO,
    LanguageMismatch { expected: Language, found: Language },
    Resource,
}

impl From<std::io::Error> for Error {
    fn from(err: std::io::Error) -> (r: Error) {
        Error::IO(err)
    }
}

impl FromSpecImpl<std::io::Error> for Error {
    open spec fn obeys_from_spec() -> bool {
        true
    }

    open spec fn from_spec(err: std::io::Error) -> Error {
        Error::IO(err)
    }
}

impl From<bincode::Error> for Error {
    fn from(err: bincode::Error) -> (r: Error) {
        Error::Deserialization(err)
    }
}

impl FromSpecImpl<bincode::Error> for Error {
    open spec fn obeys_from_spec() -> bool {
        true
    }

    open spec fn from_spec(err: bincode::Error) -> Error {
        Error::Deserialization(err)
    }
}

/// The fixed description of a language mismatch.
pub open spec fn mismatch_description() -> Seq<char> {
    "loaded a dictionary for the wrong language"@
}

/// The fixed description of a failed lookup of an embedded dictionary.
pub open spec fn resource_description() -> Seq<char> {
    "embedded dictionary could not be retrieved"@
}

/// The message of a language mismatch, naming both languages as displayed.
pub open spec fn mismatch_message(expected: Seq<char>, found: Seq<char>) -> Seq<char> {
    "Language mismatch: attempted to load a dictionary for `"@ + expected
        + "`, but found\na dictionary for `"@ + found + "` instead."@
}

/// Calls `description` of the codec's `ErrorKind`, its own short account of
/// the failure. Nothing is claimed of the text.
#[allow(deprecated)]
#[verifier::external_body]
fn codec_error_description(err: &bincode::Error) -> (r: String) {
    std::error::Error::description(err.as_ref()).to_string()
}

/// Calls `description` of `std::io::Error`. Nothing is claimed of the text.
#[allow(deprecated)]
#[verifier::external_body]
fn io_error_description(err: &std::io::Error) -> (r: String) {
    std::error::Error::description(err).to_string()
}

/// Calls `to_string` of the codec's error, which writes its own account of
/// the failure. Nothing is claimed of the text.
#[verifier::external_body]
fn codec_error_text(err: &bincode::Error) -> (r: String) {
    err.to_string()
}

/// Calls `to_string` of `std::io::Error`. The text comes from the operating
/// system, so nothing is claimed of it.
#[verifier::external_body]
fn io_error_text(err: &std::io::Error) -> (r: String) {
    err.to_string()
}

impl Error {
    /// The kind of this error.
    pub open spec fn kind_spec(&self) -> Failure {
        match *self {
            Error::Deserialization(_) => Failure::Deserialization,
            Error::IO(_) => Failure::IO,
            Error::LanguageMismatch { expected, found } => (Failure::LanguageMismatch {
                expected,
                found,
            }),
            Error::Resource => Failure::Resource,
        }
    }

    /// The kind of this error, for callers that decide by it.
    pub fn kind(&self) -> (r: Failure)
        ensures
            r == self.kind_spec(),
    {
        match self {
            Error::Deserialization(_) => Failure::Deserialization,
            Error::IO(_) => Failure::IO,
            Error::LanguageMismatch { expected, found } => Failure::LanguageMismatch {
                expected: *expected,
                found: *found,
            },
            Error::Resource => Failure::Resource,
        }
    }

    /// A short description of the failure. The two wrapped causes describe
    /// themselves; the two kinds of this library have a fixed text each.
    pub fn description(&self) -> (r: String)
        ensures
            self is LanguageMismatch ==> r@ == mismatch_description(),
            self is Resource ==> r@ == resource_description(),
    {
        match self {
            Error::Deserialization(e) => codec_error_description(e),
            Error::IO(e) => io_error_description(e),
            Error::LanguageMismatch { .. } => String::from_str(
                "loaded a dictionary for the wrong language",
            ),
            Error::Resource => String::from_str("embedded dictionary could not be retrieved"),
        }
    }

    /// The message shown to a user. A mismatch names the language asked for
    /// and the language found; a failed lookup gives its description; a
    /// wrapped cause gives its own message.
    pub fn message(&self) -> (r: String)
        ensures
            self matches Error::LanguageMismatch { expected, found } ==> r@ == mismatch_message(
                crate::language::display_of(*expected),
                crate::language::display_of(*found),
            ),
            self is Resource ==> r@ == resource_description(),
    {
        match self {
            Error::Deserialization(e) => codec_error_text(e),
            Error::IO(e) => io_error_text(e),
            Error::LanguageMismatch { expected, found } => {
                let asked = language_name(*expected);
                let got = language_name(*found);
                let mut text = String::from_str(
                    "Language mismatch: attempted to load a dictionary for `",
                );
                text.append(asked.as_str());
                text.append("`, but found\na dictionary for `");
                text.append(got.as_str());
                text.append("` instead.");
                text
            },
            Error::Resource => self.description(),
        }
    }
}

} // verus!
