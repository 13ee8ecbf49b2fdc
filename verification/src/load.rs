//! Decoding a dictionary from bytes and checking its language.
//!
//! The codec decides whether bytes are a well-formed record and what the
//! record holds. Everything after that is decided here: a record of another
//! language than the one asked for is refused, and each failure is reported
//! under its own kind.

use crate::error::{Error, Failure};
use crate::language::{code_of, language_code, same_language};
use crate::resource::{found_in, resource_name_spec, retrieve_resource, Resource};
use hyphenation_commons::Language;
use vstd::prelude::*;

verus! {

/// The record of a standard dictionary, as the outside crate defines it.
#[verifier::external_type_specification]
#[verifier::external_body]
pub struct ExStandardRecord(hyphenation_commons::dictionary::Standard);

/// The record of an extended dictionary, as the outside crate defines it.
#[verifier::external_type_specification]
#[verifier::external_body]
pub struct ExExtendedRecord(hyphenation_commons::dictionary::extended::Extended);

/// The most bytes that the codec may read or allocate for one record. A
/// record that needs more is refused like a malformed one.
pub const DECODE_LIMIT: u64 = 5_000_000;

/// A decoded dictionary: the record as the codec built it, beside the
/// language tag that the record carries. Only the decoders of this module
/// build one, and they read the tag off the record.
#[derive(Debug)]
pub struct Dictionary<R> {
    language: Language,
    record: R,
}

/// A dictionary for standard hyphenation.
pub type StandardDictionary = Dictionary<hyphenation_commons::dictionary::Standard>;

/// A dictionary for extended hyphenation.
pub type ExtendedDictionary = Dictionary<hyphenation_commons::dictionary::extended::Extended>;

impl<R> Dictionary<R> {
    /// The language that this dictionary is for.
    pub closed spec fn tag(&self) -> Language {
        self.language
    }

    /// The language that this dictionary is for.
    pub fn language(&self) -> (r: Language)
        ensures
            r == self.tag(),
    {
        self.language
    }

    /// The record that the codec built.
    pub closed spec fn payload(&self) -> R {
        self.record
    }

    /// The record, for the engine that hyphenates with it.
    pub fn record(&self) -> (r: &R)
        ensures
            *r == self.payload(),
    {
        &self.record
    }

    /// Gives up the dictionary for its record.
    pub fn into_record(self) -> (r: R)
        ensures
            r == self.payload(),
    {
        self.record
    }
}

/// The language tag of the standard record that `bytes` encode, where the
/// codec, held to `limit`, accepts them; `None` where it refuses them.
pub uninterp spec fn standard_record(limit: u64, bytes: Seq<u8>) -> Option<Language>;

/// The language tag of the extended record that `bytes` encode, where the
/// codec, held to `limit`, accepts them; `None` where it refuses them.
pub uninterp spec fn extended_record(limit: u64, bytes: Seq<u8>) -> Option<Language>;

/// Calls `deserialize_from` of bincode's configuration with the byte limit
/// set to `limit`, reading a standard record from the slice. The result
/// depends on the bytes and the limit alone: the contract names the language
/// tag of an accepted record and says that a refusal is an error. The tag is
/// read with the record's `language` accessor. The codec sizes its buffers
/// by lengths found in the bytes, up to the limit, so the limit is kept to
/// the ceiling.
#[allow(deprecated)]
#[verifier::external_body]
fn decode_standard(limit: u64, bytes: &[u8]) -> (r: Result<StandardDictionary, bincode::Error>)
    requires
        limit <= DECODE_LIMIT,
    ensures
        match r {
            Ok(d) => standard_record(limit, bytes@) == Some(d.tag()),
            Err(_) => standard_record(limit, bytes@) is None,
        },
{
    let mut reader = bytes;
    let decoded: Result<hyphenation_commons::dictionary::Standard, bincode::Error> =
        bincode::config().limit(limit).deserialize_from(&mut reader);
    match decoded {
        Ok(record) => Ok(Dictionary { language: record.language(), record }),
        Err(e) => Err(e),
    }
}

/// Calls `deserialize_from` of bincode's configuration with the byte limit
/// set to `limit`, reading an extended record from the slice. The result
/// depends on the bytes and the limit alone: the contract names the language
/// tag of an accepted record and says that a refusal is an error. The tag is
/// read with the record's `language` accessor. The codec sizes its buffers
/// by lengths found in the bytes, up to the limit, so the limit is kept to
/// the ceiling.
#[allow(deprecated)]
#[verifier::external_body]
fn decode_extended(limit: u64, bytes: &[u8]) -> (r: Result<ExtendedDictionary, bincode::Error>)
    requires
        limit <= DECODE_LIMIT,
    ensures
        match r {
            Ok(d) => extended_record(limit, bytes@) == Some(d.tag()),
            Err(_) => extended_record(limit, bytes@) is None,
        },
{
    let mut reader = bytes;
    let decoded: Result<hyphenation_commons::dictionary::extended::Extended, bincode::Error> =
        bincode::config().limit(limit).deserialize_from(&mut reader);
    match decoded {
        Ok(record) => Ok(Dictionary { language: record.language(), record }),
        Err(e) => Err(e),
    }
}

/// The language tag of the standard record that `bytes` encode, where the
/// codec accepts them as a slice, without a limit; `None` where it refuses
/// them.
pub uninterp spec fn standard_slice_record(bytes: Seq<u8>) -> Option<Language>;

/// The language tag of the extended record that `bytes` encode, where the
/// codec accepts them as a slice, without a limit; `None` where it refuses
/// them.
pub uninterp spec fn extended_slice_record(bytes: Seq<u8>) -> Option<Language>;

/// Calls bincode's `deserialize`, reading a standard record from the slice.
/// The result depends on the bytes alone: the contract names the language
/// tag of an accepted record and says that a refusal is an error. The tag is
/// read with the record's `language` accessor.
#[verifier::external_body]
fn decode_standard_slice(bytes: &[u8]) -> (r: Result<StandardDictionary, bincode::Error>)
    ensures
        match r {
            Ok(d) => standard_slice_record(bytes@) == Some(d.tag()),
            Err(_) => standard_slice_record(bytes@) is None,
        },
{
    let decoded: Result<hyphenation_commons::dictionary::Standard, bincode::Error> =
        bincode::deserialize(bytes);
    match decoded {
        Ok(record) => Ok(Dictionary { language: record.language(), record }),
        Err(e) => Err(e),
    }
}

/// Calls bincode's `deserialize`, reading an extended record from the slice.
/// The result depends on the bytes alone: the contract names the language
/// tag of an accepted record and says that a refusal is an error. The tag is
/// read with the record's `language` accessor.
#[verifier::external_body]
fn decode_extended_slice(bytes: &[u8]) -> (r: Result<ExtendedDictionary, bincode::Error>)
    ensures
        match r {
            Ok(d) => extended_slice_record(bytes@) == Some(d.tag()),
            Err(_) => extended_slice_record(bytes@) is None,
        },
{
    let decoded: Result<hyphenation_commons::dictionary::extended::Extended, bincode::Error> =
        bincode::deserialize(bytes);
    match decoded {
        Ok(record) => Ok(Dictionary { language: record.language(), record }),
        Err(e) => Err(e),
    }
}

/// What a load came to, without the payload: the language of the dictionary
/// that was returned, or the kind of the error.
pub open spec fn outcome<D: Tagged>(r: Result<D, Error>) -> Result<Language, Failure> {
    match r {
        Ok(d) => Ok(d.language_spec()),
        Err(e) => Err(e.kind_spec()),
    }
}

/// The outcome of a load without a language check, given what the codec made
/// of the bytes: any well-formed record is returned, whatever its language.
pub open spec fn unchecked(record: Option<Language>) -> Result<Language, Failure> {
    match record {
        Some(found) => Ok(found),
        None => Err(Failure::Deserialization),
    }
}

/// The outcome of a load for `expected`, given what the codec made of the
/// bytes: a well-formed record is returned only where its language is the
/// expected one.
pub open spec fn checked(expected: Language, record: Option<Language>) -> Result<
    Language,
    Failure,
> {
    match record {
        Some(found) => if found == expected {
            Ok(found)
        } else {
            Err(Failure::LanguageMismatch { expected, found })
        },
        None => Err(Failure::Deserialization),
    }
}

/// The outcome of a load from the table of embedded dictionaries for
/// `expected`, given what the lookup found and what the codec made of it.
pub open spec fn embedded(expected: Language, resource: Option<Option<Language>>) -> Result<
    Language,
    Failure,
> {
    match resource {
        Some(record) => checked(expected, record),
        None => Err(Failure::Resource),
    }
}

/// Accepts `found` where it is the language asked for, and reports both
/// languages where it is not.
pub fn validate(expected: Language, found: Language) -> (r: Result<(), Error>)
    ensures
        r is Ok <==> expected == found,
        r is Err ==> r == Err::<(), Error>(Error::LanguageMismatch { expected, found }),
{
    if same_language(found, expected) {
        Ok(())
    } else {
        Err(Error::LanguageMismatch { expected, found })
    }
}

/// Turns the codec's answer into the library's: an accepted dictionary is
/// kept as it is, a refusal becomes [`Error::Deserialization`] around the
/// codec's own error.
pub fn lift<D>(decoded: Result<D, bincode::Error>) -> (r: Result<D, Error>)
    ensures
        match decoded {
            Ok(d) => r == Ok::<D, Error>(d),
            Err(e) => r == Err::<D, Error>(Error::Deserialization(e)),
        },
{
    match decoded {
        Ok(d) => Ok(d),
        Err(e) => Err(Error::from(e)),
    }
}

/// Returns `dict` where it is for the language asked for, and the mismatch,
/// with both languages, where it is not.
pub fn check<D: Tagged>(expected: Language, dict: D) -> (r: Result<D, Error>)
    ensures
        dict.language_spec() == expected ==> r == Ok::<D, Error>(dict),
        dict.language_spec() != expected ==> r == Err::<D, Error>(
            Error::LanguageMismatch { expected, found: dict.language_spec() },
        ),
{
    match validate(expected, dict.language_of()) {
        Ok(_) => Ok(dict),
        Err(e) => Err(e),
    }
}

/// A value that carries the language it is for.
pub trait Tagged {
    /// The language that the value is for.
    spec fn language_spec(&self) -> Language;

    /// The language that the value is for.
    fn language_of(&self) -> (r: Language)
        ensures
            r == self.language_spec(),
    ;
}

impl<R> Tagged for Dictionary<R> {
    open spec fn language_spec(&self) -> Language {
        self.tag()
    }

    fn language_of(&self) -> (r: Language) {
        self.language()
    }
}

/// Retrieval of hyphenation dictionaries from encoded bytes.
pub trait Load: Tagged + Sized {
    /// The language tag of the record of this kind that `bytes` encode, where
    /// they are a well-formed record within the size ceiling.
    spec fn record_language(bytes: Seq<u8>) -> Option<Language>;

    /// The language tag of the record of this kind that `bytes` encode, where
    /// they are a well-formed record when decoded as an embedded resource,
    /// which no size ceiling bounds.
    spec fn resource_language(bytes: Seq<u8>) -> Option<Language>;

    /// The word for this kind of dictionary in the names of embedded ones.
    spec fn suffix_spec() -> Seq<char>;

    /// The word for this kind of dictionary in the names of embedded ones.
    fn suffix() -> (r: &'static str)
        ensures
            r@ == Self::suffix_spec(),
    ;

    /// Deserializes a dictionary from `bytes` without looking at its
    /// language. Bytes that are no well-formed record, or one beyond the
    /// size ceiling, give [`Error::Deserialization`]; nothing else fails.
    fn any_from_reader(bytes: &[u8]) -> (r: Result<Self, Error>)
        ensures
            outcome(r) == unchecked(Self::record_language(bytes@)),
    ;

    /// Deserializes a dictionary from `bytes` and verifies that it belongs
    /// to the requested language. A well-formed record of another language
    /// gives [`Error::LanguageMismatch`] with both languages.
    fn from_reader(lang: Language, bytes: &[u8]) -> (r: Result<Self, Error>)
        ensures
            outcome(r) == checked(lang, Self::record_language(bytes@)),
    ;

    /// Deserializes the dictionary that the table of embedded dictionaries
    /// holds for `lang`. The entry is looked up under the name made of the
    /// language's code and the kind of dictionary; a table without it gives
    /// [`Error::Resource`]. The bytes found are decoded as a slice, without a
    /// ceiling, and the record is held to the requested language as
    /// [`Load::from_reader`] holds it.
    fn from_embedded(lang: Language, table: &[Resource]) -> (r: Result<Self, Error>)
        ensures
            outcome(r) == embedded(
                lang,
                match found_in(table@, resource_name_spec(code_of(lang), Self::suffix_spec())) {
                    Some(bytes) => Some(Self::resource_language(bytes)),
                    None => None,
                },
            ),
    ;
}

impl Load for StandardDictionary {
    open spec fn record_language(bytes: Seq<u8>) -> Option<Language> {
        standard_record(DECODE_LIMIT, bytes)
    }

    open spec fn resource_language(bytes: Seq<u8>) -> Option<Language> {
        standard_slice_record(bytes)
    }

    open spec fn suffix_spec() -> Seq<char> {
        "standard"@
    }

    fn suffix() -> (r: &'static str) {
        "standard"
    }

    fn any_from_reader(bytes: &[u8]) -> (r: Result<Self, Error>) {
        lift(decode_standard(DECODE_LIMIT, bytes))
    }

    fn from_reader(lang: Language, bytes: &[u8]) -> (r: Result<Self, Error>) {
        match Self::any_from_reader(bytes) {
            Ok(dict) => check(lang, dict),
            Err(e) => Err(e),
        }
    }

    fn from_embedded(lang: Language, table: &[Resource]) -> (r: Result<Self, Error>) {
        match retrieve_resource(table, language_code(lang), Self::suffix()) {
            Ok(bytes) => match lift(decode_standard_slice(bytes)) {
                Ok(dict) => check(lang, dict),
                Err(e) => Err(e),
            },
            Err(e) => Err(e),
        }
    }
}

impl Load for ExtendedDictionary {
    open spec fn record_language(bytes: Seq<u8>) -> Option<Language> {
        extended_record(DECODE_LIMIT, bytes)
    }

    open spec fn resource_language(bytes: Seq<u8>) -> Option<Language> {
        extended_slice_record(bytes)
    }

    open spec fn suffix_spec() -> Seq<char> {
        "extended"@
    }

    fn suffix() -> (r: &'static str) {
        "extended"
    }

    fn any_from_reader(bytes: &[u8]) -> (r: Result<Self, Error>) {
        lift(decode_extended(DECODE_LIMIT, bytes))
    }

    fn from_reader(lang: Language, bytes: &[u8]) -> (r: Result<Self, Error>) {
        match Self::any_from_reader(bytes) {
            Ok(dict) => check(lang, dict),
            Err(e) => Err(e),
        }
    }

    fn from_embedded(lang: Language, table: &[Resource]) -> (r: Result<Self, Error>) {
        match retrieve_resource(table, language_code(lang), Self::suffix()) {
            Ok(bytes) => match lift(decode_extended_slice(bytes)) {
                Ok(dict) => check(lang, dict),
                Err(e) => Err(e),
            },
            Err(e) => Err(e),
        }
    }
}

} // verus!
