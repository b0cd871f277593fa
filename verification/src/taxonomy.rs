//! The vocabulary of CSL: variables, item types, locators and terms.

use vstd::prelude::*;

use crate::text::{chars_of, digit_char, digit_value, is_digit, lemma_digit_char};

verus! {

/// Any variable of a citation item.
#[derive(Debug, Copy, Clone, PartialEq, Eq, Hash, Structural)]
pub enum Variable {
    /// A text variable.
    Standard(StandardVariable),
    /// A number variable.
    Number(NumberVariable),
    /// A date variable.
    Date(DateVariable),
    /// A name variable.
    Name(NameVariable),
}

/// The text variables of CSL.
#[allow(missing_docs)]
#[derive(Debug, Copy, Clone, PartialEq, Eq, Hash, Structural)]
pub enum StandardVariable {
    Abstract,
    Annote,
    Archive,
    ArchiveCollection,
    ArchiveLocation,
    ArchivePlace,
    Authority,
    CallNumber,
    CitationKey,
    CitationLabel,
    CollectionTitle,
    ContainerTitle,
    ContainerTitleShort,
    Dimensions,
    Division,
    DOI,
    Event,
    EventTitle,
    EventPlace,
    Genre,
    ISBN,
    ISSN,
    Jurisdiction,
    Keyword,
    Language,
    License,
    Medium,
    Note,
    OriginalPublisher,
    OriginalPublisherPlace,
    OriginalTitle,
    PartTitle,
    PMCID,
    PMID,
    Publisher,
    PublisherPlace,
    References,
    ReviewedGenre,
    ReviewedTitle,
    Scale,
    Source,
    Status,
    Title,
    TitleShort,
    URL,
    VolumeTitle,
    YearSuffix,
}

/// The number variables of CSL.
#[allow(missing_docs)]
#[derive(Debug, Copy, Clone, PartialEq, Eq, Hash, Structural)]
pub enum NumberVariable {
    ChapterNumber,
    CitationNumber,
    CollectionNumber,
    Edition,
    FirstReferenceNoteNumber,
    Issue,
    Locator,
    Number,
    NumberOfPages,
    NumberOfVolumes,
    Page,
    PageFirst,
    PartNumber,
    PrintingNumber,
    Section,
    SupplementNumber,
    Version,
    Volume,
}

/// The date variables of CSL.
#[allow(missing_docs)]
#[derive(Debug, Copy, Clone, PartialEq, Eq, Hash, Structural)]
pub enum DateVariable {
    Accessed,
    AvailableDate,
    EventDate,
    Issued,
    OriginalDate,
    Submitted,
}

/// The name variables of CSL.
#[allow(missing_docs)]
#[derive(Debug, Copy, Clone, PartialEq, Eq, Hash, Structural)]
pub enum NameVariable {
    Author,
    Chair,
    CollectionEditor,
    Compiler,
    Composer,
    ContainerAuthor,
    Contributor,
    Curator,
    Director,
    Editor,
    EditorialDirector,
    EditorTranslator,
    ExecutiveProducer,
    Guest,
    Host,
    Illustrator,
    Interviewer,
    Narrator,
    Organizer,
    OriginalAuthor,
    Performer,
    Producer,
    Recipient,
    ReviewedAuthor,
    ScriptWriter,
    SeriesCreator,
    Translator,
}

/// The types of citation items.
#[allow(missing_docs)]
#[derive(Debug, Copy, Clone, PartialEq, Eq, Hash, Structural)]
pub enum Kind {
    Article,
    ArticleJournal,
    ArticleMagazine,
    ArticleNewspaper,
    Bill,
    Book,
    Broadcast,
    Chapter,
    Classic,
    Collection,
    Dataset,
    Document,
    Entry,
    EntryDictionary,
    EntryEncyclopedia,
    Event,
    Figure,
    Graphic,
    Hearing,
    Interview,
    LegalCase,
    Legislation,
    Manuscript,
    /// A map (CSL type `map`).
    GeographicMap,
    MotionPicture,
    MusicalScore,
    Pamphlet,
    PaperConference,
    Patent,
    Performance,
    Periodical,
    PersonalCommunication,
    Post,
    PostWeblog,
    Regulation,
    Report,
    Review,
    ReviewBook,
    Software,
    Song,
    Speech,
    Standard,
    Thesis,
    Treaty,
    Webpage,
}

/// The kinds of locators.
#[allow(missing_docs)]
#[derive(Debug, Copy, Clone, PartialEq, Eq, Hash, Structural)]
pub enum Locator {
    Act,
    Appendix,
    ArticleLocator,
    Book,
    Canon,
    Chapter,
    Column,
    Elocation,
    Equation,
    Figure,
    Folio,
    Issue,
    Line,
    Note,
    Opus,
    Page,
    Paragraph,
    Part,
    Rule,
    Scene,
    Section,
    SubVerbo,
    Supplement,
    Table,
    Timestamp,
    TitleLocator,
    Verse,
    Version,
    Volume,
}

/// A term that can be localized.
#[derive(Debug, Copy, Clone, PartialEq, Eq, Hash, Structural)]
pub enum Term {
    /// The name of an item type.
    Kind(Kind),
    /// The name of a name variable.
    NameVariable(NameVariable),
    /// The name of a number variable.
    NumberVariable(NumberVariable),
    /// The name of a locator.
    Locator(Locator),
    /// Any other term.
    Other(OtherTerm),
}

/// Terms that are no variable, item type or locator.
#[allow(missing_docs)]
#[derive(Debug, Copy, Clone, PartialEq, Eq, Hash, Structural)]
pub enum OtherTerm {
    Accessed,
    AdvanceOnlinePublication,
    Album,
    And,
    AndOthers,
    Anonymous,
    At,
    AudioRecording,
    AvailableAt,
    By,
    Circa,
    Cited,
    EtAl,
    Film,
    Forthcoming,
    From,
    Henceforth,
    Ibid,
    In,
    InPress,
    Internet,
    Letter,
    LocCit,
    NoDate,
    NoPlace,
    NoPublisher,
    On,
    Online,
    OpCit,
    OriginalWorkPublished,
    PersonalCommunication,
    Podcast,
    PodcastEpisode,
    Preprint,
    PresentedAt,
    RadioBroadcast,
    RadioSeries,
    RadioSeriesEpisode,
    Reference,
    Retrieved,
    ReviewOf,
    Scale,
    SpecialIssue,
    SpecialSection,
    TelevisionBroadcast,
    TelevisionSeries,
    TelevisionSeriesEpisode,
    Video,
    WorkingPaper,
    Ad,
    Bc,
    Bce,
    Ce,
    OpenQuote,
    CloseQuote,
    OpenInnerQuote,
    CloseInnerQuote,
    PageRangeDelimiter,
    Colon,
    Comma,
    Semicolon,
    /// The generic ordinal suffix.
    Ordinal,
    /// The ordinal suffix for the numbers ending in this value.
    OrdinalN(u8),
    /// The spelled out ordinal of this number.
    LongOrdinal(u8),
    /// The name of this month (1 to 12).
    Month(u8),
    /// The name of this season (1 to 4).
    Season(u8),
}

/// The number that the two characters `s` spell as decimal digits.
pub open spec fn two_digits(s: Seq<char>) -> Option<nat> {
    if s.len() == 2 && is_digit(s[0]) && is_digit(s[1]) {
        Some((digit_value(s[0]) * 10 + digit_value(s[1])) as nat)
    } else {
        None
    }
}

/// The number in `s` where `s` is `prefix` followed by two decimal digits.
pub open spec fn numbered(s: Seq<char>, prefix: Seq<char>) -> Option<nat> {
    if s.len() == prefix.len() + 2 && s.take(prefix.len() as int) == prefix {
        two_digits(s.skip(prefix.len() as int))
    } else {
        None
    }
}

/// The numbered term that the name `s` stands for: `ordinal-00` to
/// `ordinal-99`, `long-ordinal-01` to `long-ordinal-10`, `month-01` to
/// `month-12` and `season-01` to `season-04`.
pub open spec fn numbered_term(s: Seq<char>) -> Option<OtherTerm> {
    if let Some(n) = numbered(s, "ordinal-"@) {
        Some(OtherTerm::OrdinalN(n as u8))
    } else if let Some(n) = numbered(s, "long-ordinal-"@) {
        if 1 <= n <= 10 {
            Some(OtherTerm::LongOrdinal(n as u8))
        } else {
            None
        }
    } else if let Some(n) = numbered(s, "month-"@) {
        if 1 <= n <= 12 {
            Some(OtherTerm::Month(n as u8))
        } else {
            None
        }
    } else if let Some(n) = numbered(s, "season-"@) {
        if 1 <= n <= 4 {
            Some(OtherTerm::Season(n as u8))
        } else {
            None
        }
    } else {
        None
    }
}

/// The name made of `prefix` and the two decimal digits of `n`.
pub open spec fn two_digit_name(prefix: Seq<char>, n: nat) -> Seq<char> {
    prefix + seq![digit_char(n / 10), digit_char(n % 10)]
}

proof fn lemma_numbered_two_digit_name(prefix: Seq<char>, n: nat)
    requires
        n < 100,
    ensures
        numbered(two_digit_name(prefix, n), prefix) == Some(n),
{
    lemma_digit_char(n / 10);
    lemma_digit_char(n % 10);
    let s = two_digit_name(prefix, n);
    assert(s.take(prefix.len() as int) =~= prefix);
    assert(s.skip(prefix.len() as int) =~= seq![digit_char(n / 10), digit_char(n % 10)]);
}

/// Writing a numbered term's name and reading it back gives the term: for
/// every ordinal suffix, spelled-out ordinal, month and season.
pub proof fn lemma_numbered_term_names(n: u8)
    ensures
        n < 100 ==> numbered_term(two_digit_name("ordinal-"@, n as nat)) == Some(
            OtherTerm::OrdinalN(n),
        ),
        1 <= n <= 10 ==> numbered_term(two_digit_name("long-ordinal-"@, n as nat)) == Some(
            OtherTerm::LongOrdinal(n),
        ),
        1 <= n <= 12 ==> numbered_term(two_digit_name("month-"@, n as nat)) == Some(
            OtherTerm::Month(n),
        ),
        1 <= n <= 4 ==> numbered_term(two_digit_name("season-"@, n as nat)) == Some(
            OtherTerm::Season(n),
        ),
{
    reveal_strlit("ordinal-");
    reveal_strlit("long-ordinal-");
    reveal_strlit("month-");
    reveal_strlit("season-");
    if n < 100 {
        lemma_numbered_two_digit_name("ordinal-"@, n as nat);
        lemma_numbered_two_digit_name("long-ordinal-"@, n as nat);
        lemma_numbered_two_digit_name("month-"@, n as nat);
        lemma_numbered_two_digit_name("season-"@, n as nat);
        let l = two_digit_name("long-ordinal-"@, n as nat);
        assert(numbered(l, "ordinal-"@) is None) by {
            assert(l.len() != "ordinal-"@.len() + 2);
        }
        let m = two_digit_name("month-"@, n as nat);
        assert(numbered(m, "ordinal-"@) is None) by {
            assert(m.take(8)[0] == 'm');
        }
        assert(numbered(m, "long-ordinal-"@) is None) by {
            assert(m.len() != "long-ordinal-"@.len() + 2);
        }
        let t = two_digit_name("season-"@, n as nat);
        assert(numbered(t, "ordinal-"@) is None) by {
            assert(t.len() != "ordinal-"@.len() + 2);
        }
        assert(numbered(t, "long-ordinal-"@) is None) by {
            assert(t.len() != "long-ordinal-"@.len() + 2);
        }
        assert(numbered(t, "month-"@) is None) by {
            assert(t.len() != "month-"@.len() + 2);
        }
    }
}

proof fn lemma_numbered_is_name(s: Seq<char>, prefix: Seq<char>)
    ensures
        numbered(s, prefix) matches Some(n) ==> n < 100 && s == two_digit_name(prefix, n),
{
    if let Some(n) = numbered(s, prefix) {
        let rest = s.skip(prefix.len() as int);
        let a = rest[0];
        let b = rest[1];
        assert(n / 10 == digit_value(a) && n % 10 == digit_value(b));
        assert(digit_char((n / 10) as nat) as u32 == a as u32);
        assert(digit_char((n % 10) as nat) as u32 == b as u32);
        assert(s =~= two_digit_name(prefix, n));
    }
}

/// Only the names of numbered terms are read, each as the term it names:
/// a name is accepted exactly when it is the prefix of its kind followed by
/// the two digits of a number in that kind's range.
pub proof fn lemma_numbered_term_exact(s: Seq<char>)
    ensures
        numbered_term(s) matches Some(OtherTerm::OrdinalN(n)) ==> n < 100 && s == two_digit_name(
            "ordinal-"@,
            n as nat,
        ),
        numbered_term(s) matches Some(OtherTerm::LongOrdinal(n)) ==> 1 <= n <= 10 && s
            == two_digit_name("long-ordinal-"@, n as nat),
        numbered_term(s) matches Some(OtherTerm::Month(n)) ==> 1 <= n <= 12 && s == two_digit_name(
            "month-"@,
            n as nat,
        ),
        numbered_term(s) matches Some(OtherTerm::Season(n)) ==> 1 <= n <= 4 && s == two_digit_name(
            "season-"@,
            n as nat,
        ),
        numbered_term(s) is Some ==> (numbered_term(s) matches Some(OtherTerm::OrdinalN(_))
            || numbered_term(s) matches Some(OtherTerm::LongOrdinal(_)) || numbered_term(s) matches Some(
            OtherTerm::Month(_),
        ) || numbered_term(s) matches Some(OtherTerm::Season(_))),
{
    lemma_numbered_is_name(s, "ordinal-"@);
    lemma_numbered_is_name(s, "long-ordinal-"@);
    lemma_numbered_is_name(s, "month-"@);
    lemma_numbered_is_name(s, "season-"@);
}

/// The number in `v` where `v` is `prefix` followed by two decimal digits.
fn numbered_suffix(v: &Vec<char>, prefix: &str) -> (r: Option<u8>)
    ensures
        match (r, numbered(v@, prefix@)) {
            (Some(a), Some(b)) => a == b,
            (None, None) => true,
            _ => false,
        },
{
    let p = chars_of(prefix);
    let n = p.len();
    if v.len() < 2 || v.len() - 2 != n {
        return None;
    }
    let mut i: usize = 0;
    while i < n
        invariant
            n == p@.len(),
            p@ == prefix@,
            v@.len() == n + 2,
            i <= n,
            forall|j: int| 0 <= j < i ==> v@[j] == p@[j],
        decreases n - i,
    {
        if v[i] != p[i] {
            assert(v@.take(n as int)[i as int] != prefix@[i as int]);
            return None;
        }
        i = i + 1;
    }
    assert(v@.take(n as int) =~= prefix@);
    let a = v[n];
    let b = v[n + 1];
    let ghost rest = v@.skip(n as int);
    assert(rest[0] == a && rest[1] == b && rest.len() == 2);
    if '0' <= a && a <= '9' && '0' <= b && b <= '9' {
        let tens = (a as u32 - '0' as u32) as u8;
        let ones = (b as u32 - '0' as u32) as u8;
        Some(tens * 10 + ones)
    } else {
        None
    }
}

impl OtherTerm {
    /// Read the name of a numbered term, such as `ordinal-03` or `month-11`.
    /// Gives nothing for any other name, and for numbers out of range.
    pub fn from_numbered_name(name: &str) -> (r: Option<OtherTerm>)
        ensures
            r == numbered_term(name@),
    {
        let v = chars_of(name);
        if let Some(n) = numbered_suffix(&v, "ordinal-") {
            return Some(OtherTerm::OrdinalN(n));
        }
        if let Some(n) = numbered_suffix(&v, "long-ordinal-") {
            return if 1 <= n && n <= 10 {
                Some(OtherTerm::LongOrdinal(n))
            } else {
                None
            };
        }
        if let Some(n) = numbered_suffix(&v, "month-") {
            return if 1 <= n && n <= 12 {
                Some(OtherTerm::Month(n))
            } else {
                None
            };
        }
        if let Some(n) = numbered_suffix(&v, "season-") {
            return if 1 <= n && n <= 4 {
                Some(OtherTerm::Season(n))
            } else {
                None
            };
        }
        None
    }
}

} // verus!
