use vstd::prelude::*;

use crate::citation::{Bibliography, Citation};
use crate::layout::CslMacro;
use crate::locale::InlineLocale;
use crate::names::InheritableNameOptions;
use crate::primitives::{Boolean, LocaleCode, Timestamp};

verus! {

/// A CSL style.
#[derive(Debug, Clone, PartialEq, Eq, Hash)]
pub struct Style {
    /// The style's metadata.
    pub info: StyleInfo,
    /// The locale used if the user didn't specify one.
    /// Overrides the default locale of the parent style.
    pub default_locale: Option<LocaleCode>,
    /// The CSL version the style is compatible with.
    pub version: String,
    /// The style's formatting rules.
    pub rules: Option<IndependentStyle>,
}

/// Whether `i` is the position of the first link in `links` that points to
/// the independent parent style.
pub open spec fn is_first_parent_link(links: Seq<InfoLink>, i: int) -> bool {
    &&& 0 <= i < links.len()
    &&& links[i].rel == InfoLinkRel::IndependentParent
    &&& forall|j: int| 0 <= j < i ==> links[j].rel != InfoLinkRel::IndependentParent
}

/// Whether some link in `links` points to the independent parent style.
pub open spec fn has_parent_link(links: Seq<InfoLink>) -> bool {
    exists|i: int| 0 <= i < links.len() && links[i].rel == InfoLinkRel::IndependentParent
}

impl Style {
    /// Retrieve the link to the parent style for dependent styles.
    ///
    /// This is the first link whose relation is `independent-parent`.
    pub fn parent_link(&self) -> (r: Option<&InfoLink>)
        ensures
            r is None <==> !has_parent_link(self.info.link@),
            r matches Some(l) ==> exists|i: int|
                is_first_parent_link(self.info.link@, i) && self.info.link@[i] == *l,
    {
        let links = &self.info.link;
        let n = links.len();
        let mut i: usize = 0;
        while i < n
            invariant
                n == links@.len(),
                links@ == self.info.link@,
                i <= n,
                forall|j: int| 0 <= j < i ==> links@[j].rel != InfoLinkRel::IndependentParent,
            decreases n - i,
        {
            if links[i].rel == InfoLinkRel::IndependentParent {
                assert(is_first_parent_link(links@, i as int));
                assert(links@[i as int].rel == InfoLinkRel::IndependentParent);
                assert(has_parent_link(links@));
                return Some(&links[i]);
            }
            i = i + 1;
        }
        None
    }

    /// Check if the style is dependent.
    pub fn is_dependent(&self) -> (r: bool)
        ensures
            r == self.rules is None,
    {
        self.rules.is_none()
    }
}

/// A style with its own formatting rules.
#[derive(Debug, Clone, PartialEq, Eq, Hash)]
pub struct IndependentStyle {
    /// How the citations are displayed.
    pub class: StyleClass,
    /// How notes or in-text citations are displayed.
    pub citation: Citation,
    /// How the bibliography is displayed.
    pub bibliography: Option<Bibliography>,
    /// Reusable formatting rules.
    pub macros: Vec<CslMacro>,
    /// Override localized strings.
    pub locale: Vec<InlineLocale>,
    /// Whether to use a hyphen when initializing a name.
    ///
    /// Defaults to `true`.
    pub initialize_with_hyphen: Boolean,
    /// Specifies how to reformat page ranges.
    pub page_range_format: Option<PageRangeFormat>,
    /// How to treat the non-dropping name particle when sorting.
    pub demote_non_dropping_particle: DemoteNonDroppingParticle,
    /// Options for the names within.
    pub options: InheritableNameOptions,
}

impl IndependentStyle {
    /// Return the default value for `initialize_with_hyphen`.
    pub fn default_initialize_with_hyphen() -> (b: Boolean)
        ensures
            b.value() == true,
    {
        Boolean::new(true)
    }
}

/// How the citations are displayed.
#[derive(Debug, Copy, Clone, PartialEq, Eq, Hash, Structural)]
pub enum StyleClass {
    /// Citations are inlined in the text.
    InText,
    /// Citations are displayed in foot- or endnotes.
    Note,
}

/// How to reformat page ranges.
#[derive(Debug, Copy, Clone, PartialEq, Eq, Hash, Structural)]
pub enum PageRangeFormat {
    /// “321–28”
    /// Aliases: `chicago-15`
    Chicago,
    /// “321–28”
    Chicago16,
    /// “321–328”
    Expanded,
    /// “321–8”
    Minimal,
    /// “321–28”
    MinimalTwo,
}

/// How to treat the non-dropping name particle when sorting.
#[derive(Debug, Copy, Clone, PartialEq, Eq, Hash, Structural)]
pub enum DemoteNonDroppingParticle {
    /// Treat as part of the first name.
    Never,
    /// Treat as part of the first name except when sorting.
    SortOnly,
    /// Treat as part of the family name.
    DisplayAndSort,
}

impl Default for DemoteNonDroppingParticle {
    fn default() -> (r: DemoteNonDroppingParticle)
        ensures
            r == DemoteNonDroppingParticle::DisplayAndSort,
    {
        DemoteNonDroppingParticle::DisplayAndSort
    }
}

/// Citation style metadata
#[derive(Debug, Clone, PartialEq, Eq, Hash)]
pub struct StyleInfo {
    /// The authors of the style
    pub authors: Vec<StyleAttribution>,
    /// Contributors to the style
    pub contibutors: Vec<StyleAttribution>,
    /// Which format the citations are in.
    pub category: Vec<StyleCategory>,
    /// Which academic field the style is used in.
    pub field: Vec<Field>,
    /// A unique identifier for the style. May be a URL or an UUID.
    pub id: String,
    /// The ISSN for the source of the style's publication.
    pub issn: Vec<String>,
    /// The eISSN for the source of the style's publication.
    pub eissn: Option<String>,
    /// The ISSN-L for the source of the style's publication.
    pub issnl: Option<String>,
    /// Links with more information about the style.
    pub link: Vec<InfoLink>,
    /// When the style was initially published.
    pub published: Option<Timestamp>,
    /// Under which license the style is published.
    pub rights: Option<License>,
    /// A short description of the style.
    pub summary: Option<LocalString>,
    /// The title of the style.
    pub title: LocalString,
    /// A shortened version of the title.
    pub title_short: Option<LocalString>,
    /// When the style was last updated.
    pub updated: Option<Timestamp>,
}

/// A string annotated with a locale.
#[derive(Debug, Clone, PartialEq, Eq, Hash)]
pub struct LocalString {
    /// The string's locale.
    pub lang: Option<LocaleCode>,
    /// The string's value.
    pub value: String,
}

/// A person affiliated with the style.
#[derive(Debug, Clone, PartialEq, Eq, Hash)]
pub struct StyleAttribution {
    /// The person's name.
    pub name: String,
    /// The person's email address.
    pub email: Option<String>,
    /// A URI for the person.
    pub uri: Option<String>,
}

/// Which category this style belongs in.
#[derive(Debug, Copy, Clone, PartialEq, Eq, Hash, Structural)]
pub enum StyleCategory {
    /// Which format the citations are in. May only appear once as a child of `category`.
    CitationFormat {
        /// Which format the citations are in.
        format: CitationFormat,
    },
    /// Which academic field the style is used in. May appear multiple times as a child of `category`.
    Field {
        /// Which academic field the style is used in.
        field: Field,
    },
}

/// What type of in-text citation is used.
#[derive(Debug, Copy, Clone, PartialEq, Eq, Hash, Structural)]
pub enum CitationFormat {
    /// “… (Doe, 1999)”
    AuthorDate,
    /// “… (Doe)”
    Author,
    /// “… \[1\]”
    Numeric,
    /// “… \[doe99\]”
    Label,
    /// The citation appears as a foot- or endnote.
    Note,
}

/// In which academic field the style is used.
#[allow(missing_docs)]
#[derive(Debug, Copy, Clone, PartialEq, Eq, Hash, Structural)]
pub enum Field {
    Anthropology,
    Astronomy,
    Biology,
    Botany,
    Chemistry,
    Communications,
    Engineering,
    /// Used for generic styles like Harvard and APA.
    GenericBase,
    Geography,
    Geology,
    History,
    Humanities,
    Law,
    Linguistics,
    Literature,
    Math,
    Medicine,
    Philosophy,
    Physics,
    PoliticalScience,
    Psychology,
    Science,
    SocialScience,
    Sociology,
    Theology,
    Zoology,
}

/// A link with more information about the style.
#[derive(Debug, Clone, PartialEq, Eq, Hash)]
pub struct InfoLink {
    /// The link's URL.
    pub href: String,
    /// How the link relates to the style.
    pub rel: InfoLinkRel,
    /// A human-readable description of the link.
    pub description: Option<String>,
    /// The link's locale.
    pub locale: Option<LocaleCode>,
}

/// How a link relates to the style.
#[derive(Debug, Copy, Clone, PartialEq, Eq, Hash, Structural)]
pub enum InfoLinkRel {
    /// Website of the style.
    Zelf,
    /// URL from which the style is derived. Must not appear in dependent styles.
    Template,
    /// URL of the style's documentation.
    Documentation,
    /// Parent of a dependent style. Must appear in dependent styles.
    IndependentParent,
}

/// A license description.
#[derive(Debug, Clone, PartialEq, Eq, Hash)]
pub struct License {
    /// The license's name.
    pub name: String,
    /// The license's URL.
    pub license: Option<String>,
    /// The license string's locale.
    pub lang: Option<LocaleCode>,
}

} // verus!
