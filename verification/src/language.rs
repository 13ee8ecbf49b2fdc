//! The language identifier of a dictionary, as the outside crate defines it.

use hyphenation_commons::Language;
use vstd::prelude::*;

verus! {

/// The enumeration of supported languages. Its variants carry no data; a value
/// is passed around and compared, never taken apart.
#[verifier::external_type_specification]
#[verifier::external_body]
pub struct ExLanguage(hyphenation_commons::Language);

/// The short code of a language, as `Language::code` returns it.
pub uninterp spec fn code_of(lang: Language) -> Seq<char>;

/// The display form of a language, as its `Display` impl writes it.
pub uninterp spec fn display_of(lang: Language) -> Seq<char>;

/// Calls `==` of `Language`. The enum is fieldless and its `PartialEq` is
/// derived, so two values compare equal exactly when they are the same variant.
#[verifier::external_body]
pub(crate) fn same_language(a: Language, b: Language) -> (r: bool)
    ensures
        r == (a == b),
{
    a == b
}

/// Calls `Language::code`, a `match` from each variant to a fixed string. The
/// contract only gives that string a name.
#[verifier::external_body]
pub(crate) fn language_code(lang: Language) -> (r: &'static str)
    ensures
        r@ == code_of(lang),
{
    lang.code()
}

/// Calls `to_string` of `Language`, whose `Display` impl writes the variant's
/// name. The contract only gives that text a name.
#[verifier::external_body]
pub(crate) fn language_name(lang: Language) -> (r: String)
    ensures
        r@ == display_of(lang),
{
    lang.to_string()
}

} // verus!
