use vstd::prelude::*;

use crate::date::{DateForm, DatePart, DateParts};
use crate::primitives::{Boolean, LocaleCode, Timestamp};
use crate::style::{License, StyleAttribution};
use crate::taxonomy::Term;

verus! {

/// Root element of a locale file.
#[derive(Debug, Clone, PartialEq, Eq, Hash)]
pub struct LocaleRoot {
    /// The version of the locale file.
    pub version: String,
    /// Which languages or dialects this data applies to.
    pub lang: LocaleCode,
    /// Metadata of the locale.
    pub locale_info: Option<LocaleInfo>,
    /// The terms used in the locale.
    pub terms: Terms,
    /// How to format dates in the locale.
    /// file.
    pub date: DateLocale,
    /// Style options for the locale.
    pub style_options: LocaleOptions,
}

/// Supplemental localization data in a citation style.
#[derive(Debug, Clone, PartialEq, Eq, Hash)]
pub struct InlineLocale {
    /// Which languages or dialects this data applies to. Must be `Some` if this
    /// appears in a locale file.
    pub lang: Option<LocaleCode>,
    /// Metadata of the locale.
    pub locale_info: Option<LocaleInfo>,
    /// The terms used in the locale.
    pub terms: Option<Terms>,
    /// How to format dates in the locale file.
    pub date: Vec<DateLocale>,
    /// Style options for the locale.
    pub style_options: Option<LocaleOptions>,
}

/// Metadata of a locale.
#[derive(Debug, Clone, PartialEq, Eq, Hash)]
pub struct LocaleInfo {
    /// The translators of the locale.
    pub translators: Vec<StyleAttribution>,
    /// The license under which the locale is published.
    pub rights: Option<License>,
    /// When the locale was last updated.
    pub updated: Option<Timestamp>,
}

/// Term localization container.
#[derive(Debug, Clone, PartialEq, Eq, Hash)]
pub struct Terms {
    /// The terms.
    pub terms: Vec<LocalizedTerm>,
}

/// A localized term.
#[derive(Debug, Clone, PartialEq, Eq, Hash)]
pub struct LocalizedTerm {
    /// The term key.
    pub name: Term,
    /// The localization.
    pub localization: Option<String>,
    /// The singular variant.
    pub single: Option<String>,
    /// The plural variant.
    pub multiple: Option<String>,
    /// The variant of this term translation.
    pub form: TermForm,
    /// Specify the when this ordinal term is used.
    pub match_: Option<OrdinalMatch>,
    /// Specify for which grammatical gender this term has to get corresponding ordinals
    pub gender: Option<GrammarGender>,
    /// Specify which grammatical gender this ordinal term matches
    pub gender_form: Option<GrammarGender>,
}

/// The text of `preferred` where it is present, else that of `fallback`,
/// else nothing.
pub open spec fn first_present(preferred: Option<String>, fallback: Option<String>) -> Option<Seq<char>> {
    match preferred {
        Some(p) => Some(p@),
        None => match fallback {
            Some(f) => Some(f@),
            None => None,
        },
    }
}

/// The view of an optional borrowed string.
pub open spec fn str_view(s: Option<&str>) -> Option<Seq<char>> {
    match s {
        Some(t) => Some(t@),
        None => None,
    }
}

impl LocalizedTerm {
    /// Get the singular variant of this term translation. Shall be defined for
    /// valid CSL files.
    ///
    /// This is the `single` text where the term has one, else the term's own
    /// text.
    pub fn single(&self) -> (r: Option<&str>)
        ensures
            str_view(r) == first_present(self.single, self.localization),
            self.single matches Some(s) ==> (r matches Some(t) && t@ == s@),
            self.single is None ==> str_view(r) == (match self.localization {
                Some(l) => Some(l@),
                None => None,
            }),
    {
        match &self.single {
            Some(s) => Some(s.as_str()),
            None => match &self.localization {
                Some(l) => Some(l.as_str()),
                None => None,
            },
        }
    }

    /// Get the plural variant of this term translation. Shall be defined for
    /// valid CSL files.
    ///
    /// This is the `multiple` text where the term has one, else the term's own
    /// text.
    pub fn multiple(&self) -> (r: Option<&str>)
        ensures
            str_view(r) == first_present(self.multiple, self.localization),
            self.multiple matches Some(m) ==> (r matches Some(t) && t@ == m@),
            self.multiple is None ==> str_view(r) == (match self.localization {
                Some(l) => Some(l@),
                None => None,
            }),
    {
        match &self.multiple {
            Some(m) => Some(m.as_str()),
            None => match &self.localization {
                Some(l) => Some(l.as_str()),
                None => None,
            },
        }
    }
}

/// The variant of a term translation.
#[derive(Debug, Copy, Clone, PartialEq, Eq, Hash, Structural)]
pub enum TermForm {
    /// The default variant.
    Long,
    /// The short noun variant.
    Short,
    /// The related verb.
    Verb,
    /// The related verb (short form).
    VerbShort,
    /// The symbol variant.
    Symbol,
}

impl Default for TermForm {
    fn default() -> (r: TermForm)
        ensures
            r == TermForm::Long,
    {
        TermForm::Long
    }
}

/// The form to fall back to when `f` is not available.
pub open spec fn term_fallback(f: TermForm) -> TermForm {
    match f {
        TermForm::Long => TermForm::Long,
        TermForm::Short => TermForm::Long,
        TermForm::Verb => TermForm::Long,
        TermForm::VerbShort => TermForm::Verb,
        TermForm::Symbol => TermForm::Short,
    }
}

impl TermForm {
    /// Which form is the next fallback if this form is not available.
    pub fn fallback(self) -> (r: Self)
        ensures
            r == term_fallback(self),
    {
        match self {
            Self::Long => Self::Long,
            Self::Short => Self::Long,
            Self::Verb => Self::Long,
            Self::VerbShort => Self::Verb,
            Self::Symbol => Self::Short,
        }
    }
}

/// A variant's own text comes first; the term's text is used only where the
/// variant has none, and nothing is given only where neither is present.
pub proof fn lemma_variant_text_first(variant: Option<String>, localization: Option<String>)
    ensures
        variant matches Some(v) ==> first_present(variant, localization) == Some(v@),
        variant is None ==> (localization matches Some(l) ==> first_present(variant, localization)
            == Some(l@)),
        first_present(variant, localization) is None <==> variant is None && localization is None,
{
}

/// Each form falls back to its closest relative: the symbol to the short
/// noun, the short verb to the verb, and the short noun and the verb to the
/// long form, which stays.
pub proof fn lemma_fallback_relatives()
    ensures
        term_fallback(TermForm::Symbol) == TermForm::Short,
        term_fallback(TermForm::VerbShort) == TermForm::Verb,
        term_fallback(TermForm::Short) == TermForm::Long,
        term_fallback(TermForm::Verb) == TermForm::Long,
        term_fallback(TermForm::Long) == TermForm::Long,
{
}

/// Falling back ends at the default form: at most two steps from any form
/// reach `Long`, and `Long` is the only form that falls back to itself.
pub proof fn lemma_fallback_reaches_default(f: TermForm)
    ensures
        term_fallback(term_fallback(f)) == TermForm::Long,
        term_fallback(f) == f <==> f == TermForm::Long,
{
}

/// Specify when which ordinal term is used.
#[derive(Debug, Copy, Clone, PartialEq, Eq, Hash, Structural)]
pub enum OrdinalMatch {
    /// Match the last digit for ordinal terms between zero and nine and the
    /// last two otherwise.
    LastDigit,
    /// Always match on the last two non-zero digits.
    LastTwoDigits,
    /// Match on the exact number.
    WholeNumber,
}

impl Default for OrdinalMatch {
    fn default() -> (r: OrdinalMatch)
        ensures
            r == OrdinalMatch::LastDigit,
    {
        OrdinalMatch::LastDigit
    }
}

/// A grammatical gender. Use `None` for neutral.
#[allow(missing_docs)]
#[derive(Debug, Copy, Clone, PartialEq, Eq, Hash, Structural)]
pub enum GrammarGender {
    Feminine,
    Masculine,
}

/// Formats a date in a locale.
#[derive(Debug, Clone, PartialEq, Eq, Hash)]
pub struct DateLocale {
    /// How the localized date should be formatted.
    pub form: Option<DateForm>,
    /// Which parts of the localized date should be included.
    pub parts: Option<DateParts>,
    /// Override the default date parts. Also specifies the order of the parts
    /// if `form` is `None`.
    pub children: Vec<DatePart>,
}

/// Options for the locale.
#[derive(Debug, Copy, Clone, PartialEq, Eq, Hash, Structural)]
pub struct LocaleOptions {
    /// Only use ordinals for the first day in a month.
    ///
    /// Default: `false`
    pub limit_day_ordinals_to_day_1: Option<Boolean>,
    /// Whether to place punctuation inside of quotation marks.
    ///
    /// Default: `false`
    pub punctuation_in_quote: Option<Boolean>,
}

} // verus!
