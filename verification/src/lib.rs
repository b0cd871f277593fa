//! A library for parsing and formatting CSL styles.
//!
//! The data model of CSL (Citation Style Language) styles and locales, with
//! the logic that interprets it.

pub mod taxonomy;

mod citation;
mod date;
mod formatting;
mod layout;
mod locale;
mod names;
mod primitives;
mod style;
mod text;

pub use citation::{
    Bibliography, Citation, Collapse, DisambiguationRule, SecondFieldAlign, Sort, SortDirection,
    SortKey, SubsequentAuthorSubstituteRule,
};
pub use date::{
    Date, DateAnyForm, DateDayForm, DateForm, DateMonthForm, DatePart, DatePartName, DateParts,
    DateStrongAnyForm, DateYearForm,
};
pub use formatting::{
    Affixes, Display, FontStyle, FontVariant, FontWeight, Formatting, TextCase, TextDecoration,
    VerticalAlign,
};
pub use layout::{
    Choose, ChooseBranch, ChooseMatch, ChooseTest, CslMacro, ElseBranch, Group, Label,
    LabelPluralize, Layout, LayoutRenderingElement, Number, NumberForm, RenderingElement,
    TestPosition, Text, TextTarget, VariablelessLabel,
};
pub use locale::{
    DateLocale, GrammarGender, InlineLocale, LocaleInfo, LocaleOptions, LocaleRoot,
    LocalizedTerm, OrdinalMatch, TermForm, Terms,
};
pub use names::{
    DelimiterBehavior, EtAl, EtAlTerm, InheritableNameOptions, Name, NameAnd, NameAsSortOrder,
    NameForm, NamePart, Names, Substitute,
};
pub use primitives::{Boolean, LocaleCode, NonNegativeInteger, Timestamp};
pub use style::{
    CitationFormat, DemoteNonDroppingParticle, Field, IndependentStyle, InfoLink, InfoLinkRel,
    License, LocalString, PageRangeFormat, Style, StyleAttribution, StyleCategory, StyleClass,
    StyleInfo,
};
pub use text::IntegerError;
