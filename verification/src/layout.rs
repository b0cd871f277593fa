use vstd::prelude::*;

use crate::date::{same_date, Date};
use crate::formatting::{Affixes, Display, Formatting, TextCase};
use crate::locale::TermForm;
use crate::names::{same_name, Names};
use crate::primitives::Boolean;
use crate::taxonomy::{DateVariable, Kind, Locator, NumberVariable, Term, Variable};

verus! {

/// A formatting rule.
#[derive(Debug, Clone, PartialEq, Eq, Hash)]
pub struct Layout {
    /// Parts of the rule.
    pub elements: Vec<LayoutRenderingElement>,
    /// Delimit pieces of the output.
    pub delimiter: Option<String>,
}

/// Possible parts of a formatting rule.
#[derive(Debug, PartialEq, Eq, Hash)]
pub enum LayoutRenderingElement {
    /// Insert a term or variable.
    Text(Text),
    /// Format a date.
    Date(Date),
    /// Format a number.
    Number(Number),
    /// Format a list of names.
    Names(Names),
    /// Prints a label for a variable.
    Label(Label),
    /// Container for rendering elements.
    Group(Group),
    /// Conditional rendering.
    Choose(Choose),
}

/// Rendering elements.
#[derive(Debug, Clone, PartialEq, Eq, Hash)]
pub enum RenderingElement {
    /// A layout element.
    Layout(Layout),
    /// Other rendering elements.
    Other(LayoutRenderingElement),
}

/// Print a term or variable.
#[derive(Debug, PartialEq, Eq, Hash)]
pub struct Text {
    /// The term or variable to print.
    pub target: TextTarget,
    /// Override formatting style.
    pub formatting: Formatting,
    /// Add prefix and suffix.
    pub affixes: Affixes,
    /// Set layout level.
    pub display: Option<Display>,
    /// Whether to wrap this text in quotes.
    ///
    /// Default: `false`
    pub quotes: Boolean,
    /// Remove periods from the output.
    ///
    /// Default: `false`
    pub strip_periods: Boolean,
    /// Transform the text case.
    pub text_case: Option<TextCase>,
}

/// Various kinds of text targets.
#[derive(Debug, PartialEq, Eq, Hash)]
pub enum TextTarget {
    /// Prints the value of a variable.
    Variable(Variable),
    /// Prints the text output of a macro.
    Macro(String),
    /// Prints a localized term.
    Term(Term),
    /// Prints a given string.
    Value(String),
}

impl From<Variable> for TextTarget {
    fn from(value: Variable) -> (t: Self)
        ensures
            t == TextTarget::Variable(value),
    {
        Self::Variable(value)
    }
}

impl vstd::std_specs::convert::FromSpecImpl<Variable> for TextTarget {
    open spec fn obeys_from_spec() -> bool {
        true
    }

    open spec fn from_spec(value: Variable) -> TextTarget {
        TextTarget::Variable(value)
    }
}

impl From<Term> for TextTarget {
    fn from(value: Term) -> (t: Self)
        ensures
            t == TextTarget::Term(value),
    {
        Self::Term(value)
    }
}

impl vstd::std_specs::convert::FromSpecImpl<Term> for TextTarget {
    open spec fn obeys_from_spec() -> bool {
        true
    }

    open spec fn from_spec(value: Term) -> TextTarget {
        TextTarget::Term(value)
    }
}

/// Renders a number.
#[derive(Debug, PartialEq, Eq, Hash)]
pub struct Number {
    /// The variable whose value is used.
    pub variable: NumberVariable,
    /// How the number is formatted.
    pub form: NumberForm,
    /// Override formatting style.
    pub formatting: Formatting,
    /// Add prefix and suffix.
    pub affixes: Affixes,
    /// Set layout level.
    pub display: Option<Display>,
    /// Transform the text case.
    pub text_case: Option<TextCase>,
}

/// How a number is formatted.
#[derive(Debug, Copy, Clone, PartialEq, Eq, Hash, Structural)]
pub enum NumberForm {
    /// “1”
    Numeric,
    /// “1st”
    Ordinal,
    /// “first”
    LongOrdinal,
    /// “I”
    Roman,
}

impl Default for NumberForm {
    fn default() -> (r: NumberForm)
        ensures
            r == NumberForm::Numeric,
    {
        NumberForm::Numeric
    }
}

/// Print a label for a number variable.
#[derive(Debug, PartialEq, Eq, Hash)]
pub struct Label {
    /// The variable for which to print the label.
    pub variable: NumberVariable,
    /// The form of the label.
    pub label: VariablelessLabel,
}

/// A label without its variable.
#[derive(Debug, PartialEq, Eq, Hash)]
pub struct VariablelessLabel {
    /// What variant of label is chosen.
    pub form: TermForm,
    /// How to pluiralize the label.
    pub plural: LabelPluralize,
    /// Override formatting style.
    pub formatting: Formatting,
    /// Add prefix and suffix.
    pub affixes: Affixes,
    /// Transform the text case.
    pub text_case: Option<TextCase>,
    /// Remove periods from the output.
    ///
    /// Default: `false`
    pub strip_periods: Boolean,
}

/// How to pluralize a label.
#[derive(Debug, Copy, Clone, PartialEq, Eq, Hash, Structural)]
pub enum LabelPluralize {
    /// Match plurality of the variable.
    Contextual,
    /// Always use the plural form.
    Always,
    /// Always use the singular form.
    Never,
}

impl Default for LabelPluralize {
    fn default() -> (r: LabelPluralize)
        ensures
            r == LabelPluralize::Contextual,
    {
        LabelPluralize::Contextual
    }
}

/// A group of formatting instructions that is only shown if no variable is
/// referenced or at least one referenced variable is populated.
#[derive(Debug, PartialEq, Eq, Hash)]
pub struct Group {
    /// The formatting instructions.
    pub children: Vec<LayoutRenderingElement>,
    /// Delimit pieces of the output.
    pub delimiter: Option<String>,
    /// Set layout level.
    pub display: Option<Display>,
}

/// A conditional group of formatting instructions.
#[derive(Debug, PartialEq, Eq, Hash)]
pub struct Choose {
    /// If branch of the conditional group.
    pub if_: ChooseBranch,
    /// Other branches of the conditional group. The first matching branch is used.
    pub else_if: Vec<ChooseBranch>,
    /// The formatting instructions to use if no branch matches.
    pub otherwise: Option<ElseBranch>,
}

/// A single branch of a conditional group.
#[derive(Debug, PartialEq, Eq, Hash)]
pub struct ChooseBranch {
    /// Other than this choose, two elements would result in the same
    /// rendering.
    pub disambiguate: Option<Boolean>,
    /// The variable contains numeric data.
    pub is_numeric: Option<Vec<Variable>>,
    /// The variable contains an approximate date.
    pub is_uncertain_date: Option<Vec<DateVariable>>,
    /// The locator matches the given type.
    pub locator: Option<Vec<Locator>>,
    /// Tests the position of this citation in the citations to the same item.
    /// Only ever true for citations.
    pub position: Option<Vec<TestPosition>>,
    /// Tests whether the item is of a certain type.
    pub type_: Option<Vec<Kind>>,
    /// Tests whether the default form of this variable is non-empty.
    pub variable: Option<Vec<Variable>>,
    /// How to handle the set of tests.
    pub match_: ChooseMatch,
    /// The formatting instructions to use if the condition matches.
    pub children: Vec<LayoutRenderingElement>,
}

impl ChooseBranch {
    /// Retrieve the test of this branch. Valid CSL files must return `Some`
    /// here.
    ///
    /// The attributes are tried in the order `disambiguate`, `is-numeric`,
    /// `is-uncertain-date`, `locator`, `position`, `type`, `variable`; the
    /// first one that is present decides. A `disambiguate` attribute that is
    /// false gives no test.
    pub fn test(&self) -> (r: Option<ChooseTest<'_>>)
        ensures
            r is Some <==> (match self.disambiguate {
                Some(d) => d.value(),
                None => self.is_numeric is Some || self.is_uncertain_date is Some || self.locator is Some
                    || self.position is Some || self.type_ is Some || self.variable is Some,
            }),
            self.disambiguate matches Some(d) ==> (if d.value() {
                r == Some(ChooseTest::Disambiguate)
            } else {
                r is None
            }),
            self.disambiguate is None && self.is_numeric is Some ==> (r matches Some(
                ChooseTest::IsNumeric(s),
            ) && s@ == self.is_numeric->0@),
            self.disambiguate is None && self.is_numeric is None && self.is_uncertain_date is Some
                ==> (r matches Some(ChooseTest::IsUncertainDate(s)) && s@
                == self.is_uncertain_date->0@),
            self.disambiguate is None && self.is_numeric is None && self.is_uncertain_date is None
                && self.locator is Some ==> (r matches Some(ChooseTest::Locator(s)) && s@
                == self.locator->0@),
            self.disambiguate is None && self.is_numeric is None && self.is_uncertain_date is None
                && self.locator is None && self.position is Some ==> (r matches Some(
                ChooseTest::Position(s),
            ) && s@ == self.position->0@),
            self.disambiguate is None && self.is_numeric is None && self.is_uncertain_date is None
                && self.locator is None && self.position is None && self.type_ is Some ==> (r matches Some(
                ChooseTest::Type(s),
            ) && s@ == self.type_->0@),
            self.disambiguate is None && self.is_numeric is None && self.is_uncertain_date is None
                && self.locator is None && self.position is None && self.type_ is None
                && self.variable is Some ==> (r matches Some(ChooseTest::Variable(s)) && s@
                == self.variable->0@),
            self.disambiguate is None && self.is_numeric is None && self.is_uncertain_date is None
                && self.locator is None && self.position is None && self.type_ is None
                && self.variable is None ==> r is None,
    {
        if let Some(disambiguate) = self.disambiguate {
            if !*disambiguate {
                None
            } else {
                Some(ChooseTest::Disambiguate)
            }
        } else if let Some(is_numeric) = &self.is_numeric {
            Some(ChooseTest::IsNumeric(is_numeric.as_slice()))
        } else if let Some(is_uncertain_date) = &self.is_uncertain_date {
            Some(ChooseTest::IsUncertainDate(is_uncertain_date.as_slice()))
        } else if let Some(locator) = &self.locator {
            Some(ChooseTest::Locator(locator.as_slice()))
        } else if let Some(position) = &self.position {
            Some(ChooseTest::Position(position.as_slice()))
        } else if let Some(type_) = &self.type_ {
            Some(ChooseTest::Type(type_.as_slice()))
        } else {
            match &self.variable {
                Some(variable) => Some(ChooseTest::Variable(variable.as_slice())),
                None => None,
            }
        }
    }
}

/// The formatting instructions to use if no branch matches.
#[derive(Debug, PartialEq, Eq, Hash)]
pub struct ElseBranch {
    /// The formatting instructions.
    pub children: Vec<LayoutRenderingElement>,
}

/// A single test in a conditional group.
#[derive(Debug, Clone, PartialEq, Eq, Hash)]
pub enum ChooseTest<'a> {
    /// Other than this choose, two elements would result in the same
    /// rendering.
    Disambiguate,
    /// The variable contains numeric data.
    IsNumeric(&'a [Variable]),
    /// The variable contains an approximate date.
    IsUncertainDate(&'a [DateVariable]),
    /// The locator matches the given type.
    Locator(&'a [Locator]),
    /// Tests the position of this citation in the citations to the same item.
    /// Only ever true for citations.
    Position(&'a [TestPosition]),
    /// Tests whether the item is of a certain type.
    Type(&'a [Kind]),
    /// Tests whether the default form of this variable is non-empty.
    Variable(&'a [Variable]),
}

/// Possible positions of a citation in the citations to the same item.
#[derive(Debug, Copy, Clone, PartialEq, Eq, Hash, Structural)]
pub enum TestPosition {
    /// The first citation to the item.
    First,
    /// Previously cited.
    Subsequent,
    /// Directly following a citation to the same item but the locators don't necessarily match.
    IbidWithLocator,
    /// Directly following a citation to the same item with the same locators.
    Ibid,
    /// Other citation within `near-note-distance` of the same item.
    NearNote,
}

/// How to handle the set of tests in a conditional group.
#[derive(Debug, Copy, Clone, PartialEq, Eq, Hash, Structural)]
pub enum ChooseMatch {
    /// All tests must match.
    All,
    /// At least one test must match.
    Any,
    /// No test must match (CSL value `none`).
    NoneOf,
}

impl Default for ChooseMatch {
    fn default() -> (r: ChooseMatch)
        ensures
            r == ChooseMatch::All,
    {
        ChooseMatch::All
    }
}

/// A reusable set of formatting instructions.
#[derive(Debug, Clone, PartialEq, Eq, Hash)]
pub struct CslMacro {
    /// The name of the macro.
    pub name: String,
}

/// Whether `b` is a copy of the rendering element `a`: the same kind of
/// element, equal in every field, with lists that hold copies of the same
/// items in the same order.
pub open spec fn same_element(a: LayoutRenderingElement, b: LayoutRenderingElement) -> bool
    decreases a,
{
    match a {
        LayoutRenderingElement::Text(x) => b matches LayoutRenderingElement::Text(y) && y == x,
        LayoutRenderingElement::Date(x) => b matches LayoutRenderingElement::Date(y) && same_date(x, y),
        LayoutRenderingElement::Number(x) => b matches LayoutRenderingElement::Number(y) && y == x,
        LayoutRenderingElement::Names(x) => b matches LayoutRenderingElement::Names(y) && same_names(x, y),
        LayoutRenderingElement::Label(x) => b matches LayoutRenderingElement::Label(y) && y == x,
        LayoutRenderingElement::Group(x) => b matches LayoutRenderingElement::Group(y) && same_group(x, y),
        LayoutRenderingElement::Choose(x) => b matches LayoutRenderingElement::Choose(y) && same_choose(x, y),
    }
}

/// Whether `b` holds, in order, a copy of each element of `a`.
pub open spec fn same_elements(a: Seq<LayoutRenderingElement>, b: Seq<LayoutRenderingElement>) -> bool
    decreases a,
{
    &&& b.len() == a.len()
    &&& forall|i: int| 0 <= i < a.len() ==> same_element(a[i], #[trigger] b[i])
}

/// Whether `b` is a copy of the group `a`.
pub open spec fn same_group(a: Group, b: Group) -> bool
    decreases a,
{
    &&& b.delimiter == a.delimiter
    &&& b.display == a.display
    &&& same_elements(a.children@, b.children@)
}

/// Whether `b` is a copy of the branch `a`: the same tests, match rule and
/// formatting instructions.
pub open spec fn same_branch(a: ChooseBranch, b: ChooseBranch) -> bool
    decreases a,
{
    &&& same_tests(a, b)
    &&& same_elements(a.children@, b.children@)
}

/// Whether `b` holds, in order, a copy of each branch of `a`.
pub open spec fn same_branches(a: Seq<ChooseBranch>, b: Seq<ChooseBranch>) -> bool
    decreases a,
{
    &&& b.len() == a.len()
    &&& forall|i: int| 0 <= i < a.len() ==> same_branch(a[i], #[trigger] b[i])
}

/// Whether `b` is a copy of the conditional group `a`.
pub open spec fn same_choose(a: Choose, b: Choose) -> bool
    decreases a,
{
    &&& same_branch(a.if_, b.if_)
    &&& same_branches(a.else_if@, b.else_if@)
    &&& match a.otherwise {
        Some(x) => b.otherwise matches Some(y) && same_elements(x.children@, y.children@),
        None => b.otherwise is None,
    }
}

/// Whether `b` is a copy of the list of names `a`.
pub open spec fn same_names(a: Names, b: Names) -> bool
    decreases a,
{
    &&& b.variable@ == a.variable@
    &&& match a.name {
        Some(x) => b.name matches Some(y) && same_name(x, y),
        None => b.name is None,
    }
    &&& b.et_al == a.et_al
    &&& match a.substitute {
        Some(x) => b.substitute matches Some(y) && same_elements(x.children@, y.children@),
        None => b.substitute is None,
    }
    &&& b.label == a.label
    &&& b.delimiter == a.delimiter
    &&& b.options == a.options
    &&& b.formatting == a.formatting
    &&& b.affixes == a.affixes
    &&& b.display == a.display
}

/// A copy of each of `elements`, in order.
pub(crate) fn clone_elements(elements: &Vec<LayoutRenderingElement>) -> (r: Vec<LayoutRenderingElement>)
    ensures
        same_elements(elements@, r@),
    decreases elements,
{
    let n = elements.len();
    let mut r: Vec<LayoutRenderingElement> = Vec::new();
    let mut i: usize = 0;
    while i < n
        invariant
            n == elements@.len(),
            i <= n,
            r@.len() == i,
            forall|j: int| 0 <= j < i ==> same_element(elements@[j], #[trigger] r@[j]),
        decreases n - i,
    {
        proof {
            assert(decreases_to!(elements => elements@));
            assert(decreases_to!(elements@ => elements@[i as int]));
        }
        r.push(elements[i].clone());
        i = i + 1;
    }
    r
}

impl Clone for LayoutRenderingElement {
    fn clone(&self) -> (r: Self)
        ensures
            same_element(*self, r),
        decreases self,
    {
        match self {
            Self::Text(t) => Self::Text(t.clone()),
            Self::Date(d) => Self::Date(d.clone()),
            Self::Number(n) => Self::Number(n.clone()),
            Self::Names(n) => Self::Names(n.clone()),
            Self::Label(l) => Self::Label(l.clone()),
            Self::Group(g) => Self::Group(g.clone()),
            Self::Choose(c) => Self::Choose(c.clone()),
        }
    }
}

impl Clone for Group {
    fn clone(&self) -> (r: Self)
        ensures
            same_group(*self, r),
        decreases self,
    {
        Group {
            children: clone_elements(&self.children),
            delimiter: self.delimiter.clone(),
            display: self.display,
        }
    }
}

/// The items of an optional list, as a sequence.
pub open spec fn list_view<T>(o: Option<Vec<T>>) -> Option<Seq<T>> {
    match o {
        Some(v) => Some(v@),
        None => None,
    }
}

/// Whether the branch `b` tests what `a` tests, with the same match rule and
/// as many formatting instructions.
pub open spec fn same_tests(a: ChooseBranch, b: ChooseBranch) -> bool {
    &&& b.disambiguate == a.disambiguate
    &&& list_view(b.is_numeric) == list_view(a.is_numeric)
    &&& list_view(b.is_uncertain_date) == list_view(a.is_uncertain_date)
    &&& list_view(b.locator) == list_view(a.locator)
    &&& list_view(b.position) == list_view(a.position)
    &&& list_view(b.type_) == list_view(a.type_)
    &&& list_view(b.variable) == list_view(a.variable)
    &&& b.match_ == a.match_
    &&& b.children@.len() == a.children@.len()
}

/// A copy of an optional list of plain values.
fn copy_list<T: Copy>(o: &Option<Vec<T>>) -> (r: Option<Vec<T>>)
    ensures
        list_view(r) == list_view(*o),
{
    match o {
        None => None,
        Some(v) => {
            let n = v.len();
            let mut w: Vec<T> = Vec::new();
            let mut i: usize = 0;
            while i < n
                invariant
                    n == v@.len(),
                    i <= n,
                    w@ == v@.take(i as int),
                decreases n - i,
            {
                w.push(v[i]);
                i = i + 1;
                assert(w@ =~= v@.take(i as int));
            }
            assert(v@.take(n as int) =~= v@);
            Some(w)
        },
    }
}

impl Clone for ChooseBranch {
    fn clone(&self) -> (r: Self)
        ensures
            same_branch(*self, r),
        decreases self,
    {
        ChooseBranch {
            disambiguate: self.disambiguate,
            is_numeric: copy_list(&self.is_numeric),
            is_uncertain_date: copy_list(&self.is_uncertain_date),
            locator: copy_list(&self.locator),
            position: copy_list(&self.position),
            type_: copy_list(&self.type_),
            variable: copy_list(&self.variable),
            match_: self.match_,
            children: clone_elements(&self.children),
        }
    }
}

impl Clone for ElseBranch {
    fn clone(&self) -> (r: Self)
        ensures
            same_elements(self.children@, r.children@),
        decreases self,
    {
        ElseBranch { children: clone_elements(&self.children) }
    }
}

/// A copy of each of `branches`, in order.
fn clone_branches(branches: &Vec<ChooseBranch>) -> (r: Vec<ChooseBranch>)
    ensures
        same_branches(branches@, r@),
    decreases branches,
{
    let n = branches.len();
    let mut r: Vec<ChooseBranch> = Vec::new();
    let mut i: usize = 0;
    while i < n
        invariant
            n == branches@.len(),
            i <= n,
            r@.len() == i,
            forall|j: int| 0 <= j < i ==> same_branch(branches@[j], #[trigger] r@[j]),
        decreases n - i,
    {
        proof {
            assert(decreases_to!(branches => branches@));
            assert(decreases_to!(branches@ => branches@[i as int]));
        }
        r.push(branches[i].clone());
        i = i + 1;
    }
    r
}

impl Clone for Choose {
    fn clone(&self) -> (r: Self)
        ensures
            same_choose(*self, r),
        decreases self,
    {
        Choose {
            if_: self.if_.clone(),
            else_if: clone_branches(&self.else_if),
            otherwise: match &self.otherwise {
                Some(e) => Some(e.clone()),
                None => None,
            },
        }
    }
}

impl Clone for TextTarget {
    fn clone(&self) -> (r: Self)
        ensures
            r == *self,
    {
        match self {
            Self::Variable(v) => Self::Variable(*v),
            Self::Macro(m) => Self::Macro(m.clone()),
            Self::Term(t) => Self::Term(*t),
            Self::Value(v) => Self::Value(v.clone()),
        }
    }
}

impl Clone for Text {
    fn clone(&self) -> (r: Self)
        ensures
            r == *self,
    {
        Text {
            target: self.target.clone(),
            formatting: self.formatting,
            affixes: self.affixes.clone(),
            display: self.display,
            quotes: self.quotes,
            strip_periods: self.strip_periods,
            text_case: self.text_case,
        }
    }
}

impl Clone for Number {
    fn clone(&self) -> (r: Self)
        ensures
            r == *self,
    {
        Number {
            variable: self.variable,
            form: self.form,
            formatting: self.formatting,
            affixes: self.affixes.clone(),
            display: self.display,
            text_case: self.text_case,
        }
    }
}

impl Clone for VariablelessLabel {
    fn clone(&self) -> (r: Self)
        ensures
            r == *self,
    {
        VariablelessLabel {
            form: self.form,
            plural: self.plural,
            formatting: self.formatting,
            affixes: self.affixes.clone(),
            text_case: self.text_case,
            strip_periods: self.strip_periods,
        }
    }
}

impl Clone for Label {
    fn clone(&self) -> (r: Self)
        ensures
            r == *self,
    {
        Label { variable: self.variable, label: self.label.clone() }
    }
}

} // verus!
