use vstd::prelude::*;

use crate::formatting::{Affixes, Display, Formatting, TextCase};
use crate::layout::{clone_elements, same_elements, same_names, LayoutRenderingElement, VariablelessLabel};
use crate::primitives::{Boolean, NonNegativeInteger};
use crate::taxonomy::{NameVariable, OtherTerm, Term};

verus! {

/// Renders a list of names.
#[derive(Debug, PartialEq, Eq, Hash)]
pub struct Names {
    /// The variable whose value is used.
    pub variable: Vec<NameVariable>,
    /// How the names are formatted.
    pub name: Option<Name>,
    /// Configuration of the et al. abbreviation.
    pub et_al: Option<EtAl>,
    /// Substitutions in case the variable is empty.
    pub substitute: Option<Substitute>,
    /// Label for the names.
    pub label: Option<VariablelessLabel>,
    /// Delimiter between names.
    pub delimiter: Option<String>,
    /// Options for the names within.
    pub options: InheritableNameOptions,
    /// Override formatting style.
    pub formatting: Formatting,
    /// Add prefix and suffix.
    pub affixes: Affixes,
    /// Set layout level.
    pub display: Option<Display>,
}

/// Configuration of how to print names.
#[derive(Debug, PartialEq, Eq, Hash)]
pub struct Name {
    /// Delimiter between names.
    pub delimiter: String,
    /// Which name parts to display for personal names.
    pub form: NameForm,
    /// Name parts for formatting for the given and family name.
    pub parts: Vec<NamePart>,
    /// Options for this name.
    pub options: InheritableNameOptions,
    /// Override formatting style.
    pub formatting: Formatting,
    /// Add prefix and suffix.
    pub affixes: Affixes,
}

/// Whether `o` holds the default name options: no option is set, except a
/// sort separator of `,`, and the defaults of the enumerated options.
pub open spec fn default_name_options(o: InheritableNameOptions) -> bool {
    &&& o.and is None
    &&& o.name_delimiter is None
    &&& o.names_delimiter is None
    &&& o.delimiter_precedes_et_al == DelimiterBehavior::Contextual
    &&& o.delimiter_precedes_last == DelimiterBehavior::Contextual
    &&& o.et_al_min is None
    &&& o.et_al_use_first is None
    &&& o.et_al_subsequent_min is None
    &&& o.et_al_subsequent_use_first is None
    &&& o.et_al_use_last.value() == false
    &&& o.name_form == NameForm::Long
    &&& o.initialize.value() == false
    &&& o.initialize_with is None
    &&& o.name_as_sort_order is None
    &&& o.sort_separator@ == seq![',']
}

impl Default for Name {
    /// Names delimited by `, `, in long form, with no name parts and default
    /// options, formatting and affixes.
    fn default() -> (n: Name)
        ensures
            n.delimiter@ == seq![',', ' '],
            n.form == NameForm::Long,
            n.parts@.len() == 0,
            default_name_options(n.options),
            n.formatting.font_style is None,
            n.formatting.font_variant is None,
            n.formatting.font_weight is None,
            n.formatting.text_decoration is None,
            n.formatting.vertical_align is None,
            n.affixes.prefix is None,
            n.affixes.suffix is None,
    {
        let delimiter = String::from_str(", ");
        proof {
            reveal_strlit(", ");
        }
        Self {
            delimiter,
            form: NameForm::default(),
            parts: Vec::new(),
            options: InheritableNameOptions::default(),
            formatting: Formatting::default(),
            affixes: Affixes::default(),
        }
    }
}

/// Global configuration of how to print names.
#[derive(Debug, PartialEq, Eq, Hash)]
pub struct InheritableNameOptions {
    /// Delimiter between second-to-last and last name.
    pub and: Option<NameAnd>,
    /// Delimiter inherited to `cs:name` elements.
    pub name_delimiter: Option<String>,
    /// Delimiter inherited to `cs:names` elements.
    pub names_delimiter: Option<String>,
    /// Delimiter before et al.
    pub delimiter_precedes_et_al: DelimiterBehavior,
    /// Whether to use the delimiter before the last name.
    pub delimiter_precedes_last: DelimiterBehavior,
    /// Minimum number of names to use et al.
    pub et_al_min: Option<NonNegativeInteger>,
    /// Maximum number of names to use before et al.
    pub et_al_use_first: Option<NonNegativeInteger>,
    /// Minimum number of names to use et al. for repeated citations.
    pub et_al_subsequent_min: Option<NonNegativeInteger>,
    /// Maximum number of names to use before et al. for repeated citations.
    pub et_al_subsequent_use_first: Option<NonNegativeInteger>,
    /// Whether to use the last name in the author list when there are at least
    /// `et_al_min` names.
    pub et_al_use_last: Boolean,
    /// Which name parts to display for personal names.
    pub name_form: NameForm,
    /// Whether to initialize the first name if `initialize-with` is Some.
    pub initialize: Boolean,
    /// String to initialize the first name with.
    pub initialize_with: Option<String>,
    /// Whether to turn the name around.
    pub name_as_sort_order: Option<NameAsSortOrder>,
    /// Delimiter between given name and first name. Only used if
    /// `name-as-sort-order` is Some.
    pub sort_separator: String,
}

impl Default for InheritableNameOptions {
    /// No option is set, the sort separator is `,`.
    fn default() -> (o: InheritableNameOptions)
        ensures
            default_name_options(o),
    {
        let sort_separator = String::from_str(",");
        proof {
            reveal_strlit(",");
        }
        let r = Self {
            and: None,
            name_delimiter: None,
            names_delimiter: None,
            delimiter_precedes_et_al: DelimiterBehavior::default(),
            delimiter_precedes_last: DelimiterBehavior::default(),
            et_al_min: None,
            et_al_use_first: None,
            et_al_subsequent_min: None,
            et_al_subsequent_use_first: None,
            et_al_use_last: Boolean::default(),
            name_form: NameForm::default(),
            initialize: Boolean::default(),
            initialize_with: None,
            name_as_sort_order: None,
            sort_separator,
        };
        assert(r.delimiter_precedes_et_al == DelimiterBehavior::Contextual);
        assert(r.et_al_use_last.value() == false);
        assert(r.name_form == NameForm::Long);
        assert(r.sort_separator@ == seq![',']);
        r
    }
}

/// How to render the delimiter before the last name.
#[derive(Debug, Copy, Clone, PartialEq, Eq, Hash, Structural)]
pub enum NameAnd {
    /// Use the string "and".
    Text,
    /// Use the ampersand character.
    Symbol,
}

/// When delimiters shall be inserted.
#[derive(Debug, Copy, Clone, PartialEq, Eq, Hash, Structural)]
pub enum DelimiterBehavior {
    /// Only used for lists with more than one (`-precedes-et-al`) or two
    /// (`-precedes-last`) names.
    Contextual,
    /// Only use if the preceeding name is inverted (per `name-as-sort-order`).
    AfterInvertedName,
    /// Always use the delimiter for this condition.
    Always,
    /// Never use the delimiter for this condition.
    Never,
}

impl Default for DelimiterBehavior {
    fn default() -> (r: DelimiterBehavior)
        ensures
            r == DelimiterBehavior::Contextual,
    {
        DelimiterBehavior::Contextual
    }
}

/// How many name parts to print.
#[derive(Debug, Copy, Clone, PartialEq, Eq, Hash, Structural)]
pub enum NameForm {
    /// Print all name parts
    Long,
    /// Print only the family name part and non-dropping-particle.
    Short,
    /// Count the total number of names.
    Count,
}

impl Default for NameForm {
    fn default() -> (r: NameForm)
        ensures
            r == NameForm::Long,
    {
        NameForm::Long
    }
}

/// In which order to print the names.
#[derive(Debug, Copy, Clone, PartialEq, Eq, Hash, Structural)]
pub enum NameAsSortOrder {
    /// Only the first name is turned around.
    First,
    /// All names are turned around.
    All,
}

/// How to format a given name part.
#[derive(Debug, PartialEq, Eq, Hash)]
pub struct NamePart {
    /// Override formatting style.
    pub formatting: Formatting,
    /// Add prefix and suffix.
    pub affixes: Affixes,
    /// Transform the text case.
    pub text_case: Option<TextCase>,
}

impl Default for NamePart {
    /// No formatting, no affixes, no case transformation.
    fn default() -> (p: NamePart)
        ensures
            p.formatting.font_style is None,
            p.formatting.font_variant is None,
            p.formatting.font_weight is None,
            p.formatting.text_decoration is None,
            p.formatting.vertical_align is None,
            p.affixes.prefix is None,
            p.affixes.suffix is None,
            p.text_case is None,
    {
        NamePart { formatting: Formatting::default(), affixes: Affixes::default(), text_case: None }
    }
}

/// Configure the et al. abbreviation.
#[derive(Debug, PartialEq, Eq, Hash)]
pub struct EtAl {
    /// Which term to use.
    pub term: EtAlTerm,
    /// Override formatting style.
    pub formatting: Formatting,
}

/// Which term to use for et al.
#[derive(Debug, Copy, Clone, PartialEq, Eq, Hash, Structural)]
pub enum EtAlTerm {
    /// “et al.”
    EtAl,
    /// “and others”
    AndOthers,
}

impl Default for EtAlTerm {
    fn default() -> (r: EtAlTerm)
        ensures
            r == EtAlTerm::EtAl,
    {
        EtAlTerm::EtAl
    }
}

/// The localizable term that the et al. choice `term` prints.
pub open spec fn et_al_term(term: EtAlTerm) -> Term {
    match term {
        EtAlTerm::EtAl => Term::Other(OtherTerm::EtAl),
        EtAlTerm::AndOthers => Term::Other(OtherTerm::AndOthers),
    }
}

impl From<EtAlTerm> for Term {
    fn from(term: EtAlTerm) -> (t: Self)
        ensures
            t == et_al_term(term),
            term == EtAlTerm::EtAl ==> t == Term::Other(OtherTerm::EtAl),
            term == EtAlTerm::AndOthers ==> t == Term::Other(OtherTerm::AndOthers),
    {
        match term {
            EtAlTerm::EtAl => Term::Other(OtherTerm::EtAl),
            EtAlTerm::AndOthers => Term::Other(OtherTerm::AndOthers),
        }
    }
}

impl vstd::std_specs::convert::FromSpecImpl<EtAlTerm> for Term {
    open spec fn obeys_from_spec() -> bool {
        true
    }

    open spec fn from_spec(term: EtAlTerm) -> Term {
        et_al_term(term)
    }
}

/// What to do if the name variable is empty.
#[derive(Debug, PartialEq, Eq, Hash)]
pub struct Substitute {
    /// The layout to use instead.
    pub children: Vec<LayoutRenderingElement>,
}

impl Clone for Names {
    fn clone(&self) -> (r: Self)
        ensures
            same_names(*self, r),
        decreases self,
    {
        let variable = self.variable.clone();
        assert(variable@ =~= self.variable@);
        Names {
            variable,
            name: match &self.name {
                Some(n) => Some(n.clone()),
                None => None,
            },
            et_al: self.et_al.clone(),
            substitute: match &self.substitute {
                Some(s) => Some(s.clone()),
                None => None,
            },
            label: self.label.clone(),
            delimiter: self.delimiter.clone(),
            options: self.options.clone(),
            formatting: self.formatting,
            affixes: self.affixes.clone(),
            display: self.display,
        }
    }
}

impl Clone for Substitute {
    fn clone(&self) -> (r: Self)
        ensures
            same_elements(self.children@, r.children@),
        decreases self,
    {
        Substitute { children: clone_elements(&self.children) }
    }
}

impl Clone for InheritableNameOptions {
    fn clone(&self) -> (r: Self)
        ensures
            r == *self,
    {
        InheritableNameOptions {
            and: self.and,
            name_delimiter: self.name_delimiter.clone(),
            names_delimiter: self.names_delimiter.clone(),
            delimiter_precedes_et_al: self.delimiter_precedes_et_al,
            delimiter_precedes_last: self.delimiter_precedes_last,
            et_al_min: self.et_al_min,
            et_al_use_first: self.et_al_use_first,
            et_al_subsequent_min: self.et_al_subsequent_min,
            et_al_subsequent_use_first: self.et_al_subsequent_use_first,
            et_al_use_last: self.et_al_use_last,
            name_form: self.name_form,
            initialize: self.initialize,
            initialize_with: self.initialize_with.clone(),
            name_as_sort_order: self.name_as_sort_order,
            sort_separator: self.sort_separator.clone(),
        }
    }
}

impl Clone for NamePart {
    fn clone(&self) -> (r: Self)
        ensures
            r == *self,
    {
        NamePart { formatting: self.formatting, affixes: self.affixes.clone(), text_case: self.text_case }
    }
}

impl Clone for EtAl {
    fn clone(&self) -> (r: Self)
        ensures
            r == *self,
    {
        EtAl { term: self.term, formatting: self.formatting }
    }
}

/// Whether `b` is a copy of the name configuration `a`: equal in every field,
/// with a list of name parts that holds the same parts.
pub open spec fn same_name(a: Name, b: Name) -> bool {
    &&& b.delimiter == a.delimiter
    &&& b.form == a.form
    &&& b.parts@ == a.parts@
    &&& b.options == a.options
    &&& b.formatting == a.formatting
    &&& b.affixes == a.affixes
}

impl Clone for Name {
    fn clone(&self) -> (r: Self)
        ensures
            same_name(*self, r),
    {
        let parts = self.parts.clone();
        assert(parts@ =~= self.parts@);
        Name {
            delimiter: self.delimiter.clone(),
            form: self.form,
            parts,
            options: self.options.clone(),
            formatting: self.formatting,
            affixes: self.affixes.clone(),
        }
    }
}

} // verus!
