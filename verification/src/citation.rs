use vstd::prelude::*;

use crate::layout::Layout;
use crate::names::InheritableNameOptions;
use crate::primitives::{Boolean, NonNegativeInteger};
use crate::taxonomy::Variable;

verus! {

/// Formatting instructions for in-text or note citations.
#[derive(Debug, Clone, PartialEq, Eq, Hash)]
pub struct Citation {
    /// How items are sorted within the citation.
    pub sort: Option<Sort>,
    /// The citation's formatting rules.
    pub layout: Layout,
    /// Expand names that are ambiguous in short form.
    ///
    /// Default: `false`
    pub disambiguate_add_givenname: Boolean,
    /// When to expand names that are ambiguous in short form.
    pub givenname_disambiguation_rule: Option<DisambiguationRule>,
    /// Disambiguate by adding more names that would otherwise be hidden by et al.
    ///
    /// Default: `false`
    pub disambiguate_add_names: Boolean,
    /// Disambiguate by adding an alphabetical suffix to the year.
    ///
    /// Default: `false`
    pub disambiguate_add_year_suffix: Boolean,
    /// Group items in cite by name.
    pub cite_group_delimiter: Option<String>,
    /// How to collapse cites with similar items.
    pub collapse: Option<Collapse>,
    /// Delimiter between year suffixes.
    pub year_suffix_delimiter: Option<String>,
    /// Delimiter after a collapsed cite group.
    pub after_collapse_delimiter: Option<String>,
    /// When near-note-distance is true.
    ///
    /// Default: `5`
    pub near_note_distance: NonNegativeInteger,
    /// Options for the names within.
    pub name_options: InheritableNameOptions,
}

/// The delimiter `own` where it is set, else the layout's delimiter
/// `inherited` where that is set, else the empty string.
pub open spec fn delimiter_or_inherited(own: Option<String>, inherited: Option<String>) -> Seq<char> {
    match own {
        Some(d) => d@,
        None => match inherited {
            Some(d) => d@,
            None => Seq::empty(),
        },
    }
}

/// A citation's own delimiter wins over the layout's, whatever the layout
/// sets; the layout's applies only where the citation sets none, and the empty
/// string only where neither is set.
pub proof fn lemma_own_delimiter_first(own: Option<String>, inherited: Option<String>)
    ensures
        own matches Some(d) ==> delimiter_or_inherited(own, inherited) == d@,
        own is None ==> (inherited matches Some(d) ==> delimiter_or_inherited(own, inherited)
            == d@),
        own is None && inherited is None ==> delimiter_or_inherited(own, inherited).len() == 0,
{
}

impl Citation {
    /// Return the default value for `cite_group_delimiter` if implicitly needed
    /// due to presence of a `collapse` attribute.
    pub const DEFAULT_CITE_GROUP_DELIMITER: &'static str = ", ";

    /// Return the `year_suffix_delimiter`.
    ///
    /// Falls back to the layout's delimiter, then to the empty string.
    pub fn get_year_suffix_delimiter(&self) -> (r: &str)
        ensures
            r@ == delimiter_or_inherited(self.year_suffix_delimiter, self.layout.delimiter),
            self.year_suffix_delimiter matches Some(d) ==> r@ == d@,
            self.year_suffix_delimiter is None ==> (self.layout.delimiter matches Some(d) ==> r@
                == d@),
            self.year_suffix_delimiter is None && self.layout.delimiter is None ==> r@.len() == 0,
    {
        match &self.year_suffix_delimiter {
            Some(d) => d.as_str(),
            None => match &self.layout.delimiter {
                Some(d) => d.as_str(),
                None => {
                    proof {
                        reveal_strlit("");
                    }
                    ""
                },
            },
        }
    }

    /// Return the `after_collapse_delimiter`.
    ///
    /// Falls back to the layout's delimiter, then to the empty string.
    pub fn get_after_collapse_delimiter(&self) -> (r: &str)
        ensures
            r@ == delimiter_or_inherited(self.after_collapse_delimiter, self.layout.delimiter),
            self.after_collapse_delimiter matches Some(d) ==> r@ == d@,
            self.after_collapse_delimiter is None ==> (self.layout.delimiter matches Some(d) ==> r@
                == d@),
            self.after_collapse_delimiter is None && self.layout.delimiter is None ==> r@.len()
                == 0,
    {
        match &self.after_collapse_delimiter {
            Some(d) => d.as_str(),
            None => match &self.layout.delimiter {
                Some(d) => d.as_str(),
                None => {
                    proof {
                        reveal_strlit("");
                    }
                    ""
                },
            },
        }
    }

    /// Return the default `near_note_distance`.
    pub fn default_near_note_distance() -> (n: NonNegativeInteger)
        ensures
            n.value() == 5,
    {
        NonNegativeInteger::new(5)
    }
}

/// When to expand names that are ambiguous in short form.
#[derive(Debug, Copy, Clone, PartialEq, Eq, Hash, Structural)]
pub enum DisambiguationRule {
    /// Expand to disambiguate both cites and names.
    AllNames,
    /// Expand to disambiguate cites and names but only use initials.
    AllNamesWithInitials,
    /// Same as `AllNames` but only disambiguate the first person in a citation.
    PrimaryName,
    /// Same as `AllNamesWithInitials` but only disambiguate the first person in a citation.
    PrimaryNameWithInitials,
    /// Expand to disambiguate cites but not names.
    ByCite,
}

impl Default for DisambiguationRule {
    fn default() -> (r: DisambiguationRule)
        ensures
            r == DisambiguationRule::ByCite,
    {
        DisambiguationRule::ByCite
    }
}

/// How to collapse cites with similar items.
#[derive(Debug, Copy, Clone, PartialEq, Eq, Hash, Structural)]
pub enum Collapse {
    /// Collapse items with increasing ranges for numeric styles.
    CitationNumber,
    /// Collapse items with the same authors and different years by omitting the author.
    Year,
    /// Same as `Year`, but equal years are omitted as well.
    YearSuffix,
    /// Same as `YearSuffix`, but also collapse the suffixes into a range.
    YearSuffixRanged,
}

/// Formatting instructions for the bibliography.
#[derive(Debug, Clone, PartialEq, Eq, Hash)]
pub struct Bibliography {
    /// How items are sorted within the citation.
    pub sort: Option<Sort>,
    /// The citation's formatting rules.
    pub layout: Layout,
    /// Render the bibliography in a hanging indent.
    ///
    /// Default: `false`
    pub hanging_indent: Boolean,
    /// When set, the second field is aligned.
    pub second_field_align: Option<SecondFieldAlign>,
    /// When set, subsequent identical names are replaced with this.
    pub subsequent_author_substitute: Option<String>,
    /// How to replace subsequent identical names.
    pub subsequent_author_substitute_rule: SubsequentAuthorSubstituteRule,
    /// Options for the names within.
    pub options: InheritableNameOptions,
}

/// How to position the first field if the second field is aligned in a bibliography.
#[derive(Debug, Copy, Clone, PartialEq, Eq, Hash, Structural)]
pub enum SecondFieldAlign {
    /// Put the first field in the margin and align with the margin.
    Margin,
    /// Flush the first field with the margin.
    Flush,
}

/// How to replace subsequent identical names in a bibliography.
#[derive(Debug, Copy, Clone, PartialEq, Eq, Hash, Structural)]
pub enum SubsequentAuthorSubstituteRule {
    /// When all names match, replace.
    CompleteAll,
    /// When all names match, replace each name.
    CompleteEach,
    /// Each maching name is replaced.
    PartialEach,
    /// Only the first matching name is replaced.
    PartialFirst,
}

impl Default for SubsequentAuthorSubstituteRule {
    fn default() -> (r: SubsequentAuthorSubstituteRule)
        ensures
            r == SubsequentAuthorSubstituteRule::CompleteAll,
    {
        SubsequentAuthorSubstituteRule::CompleteAll
    }
}

/// How to sort elements in a bibliography or citation.
#[derive(Debug, Clone, PartialEq, Eq, Hash)]
pub struct Sort {
    /// The ordered list of sorting keys.
    pub keys: Vec<SortKey>,
}

/// A sorting key.
#[derive(Debug, Clone, PartialEq, Eq, Hash)]
pub enum SortKey {
    /// Sort by the value of a variable.
    Variable {
        /// The variable to sort by.
        variable: Variable,
        /// In which direction to sort.
        sort_direction: SortDirection,
    },
    /// Sort by the output of a macro.
    MacroName {
        /// The name of the macro.
        name: String,
        /// Override `[InheritedNameOptions::et_al_min]` and
        /// `[InheritedNameOptions::et_al_subsequent_min]` for macros.
        names_min: Option<NonNegativeInteger>,
        /// Override `[InheritedNameOptions::et_al_use_first]` and
        /// `[InheritedNameOptions::et_al_subsequent_use_first]` for macros.
        names_use_first: Option<NonNegativeInteger>,
        /// Override `[InheritedNameOptions::et_al_use_last]` for macros.
        names_use_last: Option<Boolean>,
        /// In which direction to sort.
        sort_direction: SortDirection,
    },
}

/// The key that sorts by the variable `v` in the default direction.
pub open spec fn variable_key(v: Variable) -> SortKey {
    SortKey::Variable { variable: v, sort_direction: SortDirection::Ascending }
}

impl From<Variable> for SortKey {
    /// Sort by the variable, ascending.
    fn from(value: Variable) -> (k: Self)
        ensures
            k == variable_key(value),
    {
        Self::Variable { variable: value, sort_direction: SortDirection::default() }
    }
}

impl vstd::std_specs::convert::FromSpecImpl<Variable> for SortKey {
    open spec fn obeys_from_spec() -> bool {
        true
    }

    open spec fn from_spec(value: Variable) -> SortKey {
        variable_key(value)
    }
}

/// The direction in which the key `k` sorts.
pub open spec fn key_direction(k: SortKey) -> SortDirection {
    match k {
        SortKey::Variable { sort_direction, .. } => sort_direction,
        SortKey::MacroName { sort_direction, .. } => sort_direction,
    }
}

impl SortKey {
    /// Retrieve the sort direction.
    pub fn sort_direction(&self) -> (r: SortDirection)
        ensures
            r == key_direction(*self),
            *self matches SortKey::Variable { sort_direction, .. } ==> r == sort_direction,
            *self matches SortKey::MacroName { sort_direction, .. } ==> r == sort_direction,
    {
        match self {
            Self::Variable { sort_direction, .. } => *sort_direction,
            Self::MacroName { sort_direction, .. } => *sort_direction,
        }
    }
}

/// The direction of every sort key is the direction stored in it, for keys
/// that sort by a variable and for keys that sort by a macro.
pub proof fn lemma_key_direction_is_stored(
    variable: Variable,
    name: String,
    names_min: Option<NonNegativeInteger>,
    names_use_first: Option<NonNegativeInteger>,
    names_use_last: Option<Boolean>,
    direction: SortDirection,
)
    ensures
        key_direction(SortKey::Variable { variable, sort_direction: direction }) == direction,
        key_direction(
            SortKey::MacroName {
                name,
                names_min,
                names_use_first,
                names_use_last,
                sort_direction: direction,
            },
        ) == direction,
{
}

/// A key made from a variable alone sorts that variable in the default,
/// ascending, direction.
pub proof fn lemma_variable_key_ascending(v: Variable)
    ensures
        key_direction(variable_key(v)) == SortDirection::Ascending,
        variable_key(v) matches SortKey::Variable { variable, .. } && variable == v,
{
}

/// The direction to sort in.
#[derive(Debug, Copy, Clone, PartialEq, Eq, Hash, Structural)]
pub enum SortDirection {
    /// Sort in ascending order.
    Ascending,
    /// Sort in descending order.
    Descending,
}

impl Default for SortDirection {
    fn default() -> (r: SortDirection)
        ensures
            r == SortDirection::Ascending,
    {
        SortDirection::Ascending
    }
}

} // verus!
