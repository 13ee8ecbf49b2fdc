//! What holds of every load, stated over the outcome of a call and proved
//! from the contracts of [`Load`].

use crate::error::Error;
use crate::language::code_of;
use crate::load::{checked, embedded, outcome, unchecked, Load};
use crate::resource::{
    first_match_is_unique, found_in, is_first_match, resource_name_spec, Resource,
};
use hyphenation_commons::Language;
use vstd::prelude::*;

verus! {

/// `r` is a result that [`Load::any_from_reader`] may return for `bytes`.
pub open spec fn loaded_any<D: Load>(bytes: Seq<u8>, r: Result<D, Error>) -> bool {
    outcome(r) == unchecked(D::record_language(bytes))
}

/// `r` is a result that [`Load::from_reader`] may return for `lang` and
/// `bytes`.
pub open spec fn loaded_checked<D: Load>(
    lang: Language,
    bytes: Seq<u8>,
    r: Result<D, Error>,
) -> bool {
    outcome(r) == checked(lang, D::record_language(bytes))
}

/// The name under which the table holds the dictionary of kind `D` for
/// `lang`.
pub open spec fn name_in_table<D: Load>(lang: Language) -> Seq<char> {
    resource_name_spec(code_of(lang), D::suffix_spec())
}

/// `r` is a result that [`Load::from_embedded`] may return for `lang` and
/// `table`.
pub open spec fn loaded_embedded<D: Load>(
    lang: Language,
    table: Seq<Resource>,
    r: Result<D, Error>,
) -> bool {
    outcome(r) == embedded(
        lang,
        match found_in(table, name_in_table::<D>(lang)) {
            Some(bytes) => Some(D::resource_language(bytes)),
            None => None,
        },
    )
}

/// Bytes that encode a record for a language load, under that language, to a
/// dictionary for that language.
pub proof fn matching_language_loads<D: Load>(lang: Language, bytes: Seq<u8>, r: Result<D, Error>)
    requires
        D::record_language(bytes) == Some(lang),
        loaded_checked(lang, bytes, r),
    ensures
        r is Ok,
        r->Ok_0.language_spec() == lang,
{
}

/// Bytes that encode a record for one language never load under another: the
/// result is the mismatch, with the language asked for and the one found.
pub proof fn other_language_is_refused<D: Load>(
    lang: Language,
    found: Language,
    bytes: Seq<u8>,
    r: Result<D, Error>,
)
    requires
        D::record_language(bytes) == Some(found),
        found != lang,
        loaded_checked(lang, bytes, r),
    ensures
        r is Err,
        r->Err_0 == (Error::LanguageMismatch { expected: lang, found }),
{
}

/// A load without a language check returns every well-formed record,
/// whatever its language.
pub proof fn unchecked_load_ignores_language<D: Load>(
    found: Language,
    bytes: Seq<u8>,
    r: Result<D, Error>,
)
    requires
        D::record_language(bytes) == Some(found),
        loaded_any(bytes, r),
    ensures
        r is Ok,
        r->Ok_0.language_spec() == found,
{
}

/// Bytes that the codec refuses never give a dictionary: with or without a
/// language check the result is a deserialization failure.
pub proof fn refused_bytes_fail_to_deserialize<D: Load>(
    lang: Language,
    bytes: Seq<u8>,
    any: Result<D, Error>,
    for_lang: Result<D, Error>,
)
    requires
        D::record_language(bytes) is None,
        loaded_any(bytes, any),
        loaded_checked(lang, bytes, for_lang),
    ensures
        any is Err,
        any->Err_0 is Deserialization,
        for_lang is Err,
        for_lang->Err_0 is Deserialization,
{
}

/// A table without an entry of exactly the dictionary's name gives no
/// dictionary: the load reports that the resource is missing.
pub proof fn absent_entry_is_reported<D: Load>(
    lang: Language,
    table: Seq<Resource>,
    r: Result<D, Error>,
)
    requires
        forall|i: int| 0 <= i < table.len() ==> (#[trigger] table[i]).name@ != name_in_table::<D>(lang),
        loaded_embedded(lang, table, r),
    ensures
        r is Err,
        r->Err_0 == Error::Resource,
{
    assert forall|i: int| !is_first_match(table, name_in_table::<D>(lang), i) by {
        if 0 <= i < table.len() {
            assert(table[i].name@ != name_in_table::<D>(lang));
        }
    }
}

/// A table whose first entry of the dictionary's name holds `bytes`, of which
/// the codec makes the same with and without the size ceiling, gives what a
/// reader of `bytes` gives; a dictionary that comes of it is for the language
/// asked for.
pub proof fn present_entry_loads_like_reader<D: Load>(
    lang: Language,
    table: Seq<Resource>,
    i: int,
    from_table: Result<D, Error>,
    from_reader: Result<D, Error>,
)
    requires
        is_first_match(table, name_in_table::<D>(lang), i),
        D::resource_language(table[i].bytes@) == D::record_language(table[i].bytes@),
        loaded_embedded(lang, table, from_table),
        loaded_checked(lang, table[i].bytes@, from_reader),
    ensures
        outcome(from_table) == outcome(from_reader),
        from_table is Ok ==> from_table->Ok_0.language_spec() == lang,
{
    let name = name_in_table::<D>(lang);
    let c = choose|c: int| is_first_match(table, name, c);
    first_match_is_unique(table, name, i, c);
}

/// A dictionary that comes from the table is for the language asked for, and
/// a load from the table fails only for a missing entry, a refusal by the
/// codec or a mismatch.
pub proof fn embedded_dictionary_is_for_its_language<D: Load>(
    lang: Language,
    table: Seq<Resource>,
    r: Result<D, Error>,
)
    requires
        loaded_embedded(lang, table, r),
    ensures
        r is Ok ==> r->Ok_0.language_spec() == lang,
        r is Err ==> r->Err_0 is Resource || r->Err_0 is Deserialization
            || r->Err_0 is LanguageMismatch,
{
}

/// A load never fails for want of reading or of a resource once it has the
/// bytes: its only failures are a refusal by the codec and, with a language
/// check, a mismatch.
pub proof fn failures_of_a_load<D: Load>(
    lang: Language,
    bytes: Seq<u8>,
    any: Result<D, Error>,
    for_lang: Result<D, Error>,
)
    requires
        loaded_any(bytes, any),
        loaded_checked(lang, bytes, for_lang),
    ensures
        any is Err ==> any->Err_0 is Deserialization,
        for_lang is Err ==> for_lang->Err_0 is Deserialization
            || for_lang->Err_0 is LanguageMismatch,
        for_lang is Ok ==> any is Ok,
{
}

/// Two loads of the same bytes come to the same outcome: both return a
/// dictionary for the same language, or both fail in the same way.
pub proof fn loads_are_repeatable<D: Load>(
    lang: Language,
    bytes: Seq<u8>,
    table: Seq<Resource>,
    any: (Result<D, Error>, Result<D, Error>),
    for_lang: (Result<D, Error>, Result<D, Error>),
    from_table: (Result<D, Error>, Result<D, Error>),
)
    requires
        loaded_any(bytes, any.0),
        loaded_any(bytes, any.1),
        loaded_checked(lang, bytes, for_lang.0),
        loaded_checked(lang, bytes, for_lang.1),
        loaded_embedded(lang, table, from_table.0),
        loaded_embedded(lang, table, from_table.1),
    ensures
        outcome(any.0) == outcome(any.1),
        outcome(for_lang.0) == outcome(for_lang.1),
        outcome(from_table.0) == outcome(from_table.1),
{
}

} // verus!
