use citationberg::taxonomy::{
    DateVariable, Kind, Locator, NameVariable, NumberVariable, OtherTerm, StandardVariable, Term,
    Variable,
};
use citationberg::{
    Affixes, Boolean, ChooseBranch, ChooseMatch, ChooseTest, Citation, DateAnyForm, DateDayForm,
    DateMonthForm, DatePart, DatePartName, DateStrongAnyForm, DateYearForm, DelimiterBehavior,
    EtAlTerm, Formatting, Group, IndependentStyle, InfoLink, InfoLinkRel,
    InheritableNameOptions, Layout, LayoutRenderingElement, LocalString, LocalizedTerm, Name,
    NameForm, NonNegativeInteger, SortDirection, SortKey, Style, StyleInfo, TermForm, TestPosition,
    Text, TextTarget,
};

fn layout(delimiter: Option<&str>) -> Layout {
    Layout { elements: Vec::new(), delimiter: delimiter.map(|d| d.to_string()) }
}

fn citation(year_suffix: Option<&str>, after_collapse: Option<&str>, layout_delim: Option<&str>) -> Citation {
    Citation {
        sort: None,
        layout: layout(layout_delim),
        disambiguate_add_givenname: Boolean::default(),
        givenname_disambiguation_rule: None,
        disambiguate_add_names: Boolean::default(),
        disambiguate_add_year_suffix: Boolean::default(),
        cite_group_delimiter: None,
        collapse: None,
        year_suffix_delimiter: year_suffix.map(|d| d.to_string()),
        after_collapse_delimiter: after_collapse.map(|d| d.to_string()),
        near_note_distance: Citation::default_near_note_distance(),
        name_options: InheritableNameOptions::default(),
    }
}

fn link(rel: InfoLinkRel, href: &str) -> InfoLink {
    InfoLink { href: href.to_string(), rel, description: None, locale: None }
}

fn style(links: Vec<InfoLink>, rules: Option<IndependentStyle>) -> Style {
    Style {
        info: StyleInfo {
            authors: Vec::new(),
            contibutors: Vec::new(),
            category: Vec::new(),
            field: Vec::new(),
            id: "http://www.zotero.org/styles/example".to_string(),
            issn: Vec::new(),
            eissn: None,
            issnl: None,
            link: links,
            published: None,
            rights: None,
            summary: None,
            title: LocalString { lang: None, value: "Example".to_string() },
            title_short: None,
            updated: None,
        },
        default_locale: None,
        version: "1.0".to_string(),
        rules,
    }
}

fn independent() -> IndependentStyle {
    IndependentStyle {
        class: citationberg::StyleClass::InText,
        citation: citation(None, None, None),
        bibliography: None,
        macros: Vec::new(),
        locale: Vec::new(),
        initialize_with_hyphen: IndependentStyle::default_initialize_with_hyphen(),
        page_range_format: None,
        demote_non_dropping_particle: Default::default(),
        options: InheritableNameOptions::default(),
    }
}

#[test]
fn parent_link_is_first_independent_parent() {
    let s = style(
        vec![
            link(InfoLinkRel::Zelf, "self"),
            link(InfoLinkRel::IndependentParent, "parent-1"),
            link(InfoLinkRel::IndependentParent, "parent-2"),
        ],
        None,
    );
    assert_eq!(s.parent_link().map(|l| l.href.as_str()), Some("parent-1"));
    assert!(s.is_dependent());
}

#[test]
fn parent_link_absent() {
    let s = style(vec![link(InfoLinkRel::Template, "t"), link(InfoLinkRel::Documentation, "d")], Some(independent()));
    assert!(s.parent_link().is_none());
    assert!(!s.is_dependent());
    let empty = style(Vec::new(), None);
    assert!(empty.parent_link().is_none());
}

#[test]
fn style_defaults() {
    assert!(*IndependentStyle::default_initialize_with_hyphen());
    assert_eq!(*Citation::default_near_note_distance(), 5);
    assert_eq!(Citation::DEFAULT_CITE_GROUP_DELIMITER, ", ");
    assert_eq!(DatePart::DEFAULT_DELIMITER, "–");
    assert_eq!(
        citationberg::DemoteNonDroppingParticle::default(),
        citationberg::DemoteNonDroppingParticle::DisplayAndSort
    );
}

#[test]
fn citation_delimiters_fall_back() {
    let own = citation(Some(";"), Some("|"), Some(", "));
    assert_eq!(own.get_year_suffix_delimiter(), ";");
    assert_eq!(own.get_after_collapse_delimiter(), "|");
    let inherited = citation(None, None, Some(", "));
    assert_eq!(inherited.get_year_suffix_delimiter(), ", ");
    assert_eq!(inherited.get_after_collapse_delimiter(), ", ");
    let nothing = citation(None, None, None);
    assert_eq!(nothing.get_year_suffix_delimiter(), "");
    assert_eq!(nothing.get_after_collapse_delimiter(), "");
    let mixed = citation(Some(""), None, Some("x"));
    assert_eq!(mixed.get_year_suffix_delimiter(), "");
    assert_eq!(mixed.get_after_collapse_delimiter(), "x");
}

#[test]
fn sort_keys() {
    let v = Variable::Standard(StandardVariable::Title);
    let key = SortKey::from(v);
    assert_eq!(key, SortKey::Variable { variable: v, sort_direction: SortDirection::Ascending });
    assert_eq!(key.sort_direction(), SortDirection::Ascending);
    let m = SortKey::MacroName {
        name: "author".to_string(),
        names_min: Some(NonNegativeInteger::new(3)),
        names_use_first: None,
        names_use_last: None,
        sort_direction: SortDirection::Descending,
    };
    assert_eq!(m.sort_direction(), SortDirection::Descending);
    assert_eq!(SortDirection::default(), SortDirection::Ascending);
}

fn date_part(name: DatePartName, form: Option<DateAnyForm>) -> DatePart {
    DatePart {
        name,
        form,
        range_delimiter: None,
        formatting: Formatting::default(),
        affixes: Affixes::default(),
        strip_periods: Boolean::default(),
        text_case: None,
    }
}

#[test]
fn date_forms_per_part() {
    assert_eq!(DateAnyForm::Numeric.form_for_day(), Some(DateDayForm::Numeric));
    assert_eq!(DateAnyForm::NumericLeadingZeros.form_for_day(), Some(DateDayForm::NumericLeadingZeros));
    assert_eq!(DateAnyForm::Ordinal.form_for_day(), Some(DateDayForm::Ordinal));
    assert_eq!(DateAnyForm::Long.form_for_day(), None);
    assert_eq!(DateAnyForm::Short.form_for_day(), None);
    assert_eq!(DateAnyForm::Long.form_for_month(), Some(DateMonthForm::Long));
    assert_eq!(DateAnyForm::Short.form_for_month(), Some(DateMonthForm::Short));
    assert_eq!(DateAnyForm::Numeric.form_for_month(), Some(DateMonthForm::Numeric));
    assert_eq!(DateAnyForm::NumericLeadingZeros.form_for_month(), Some(DateMonthForm::NumericLeadingZeros));
    assert_eq!(DateAnyForm::Ordinal.form_for_month(), None);
    assert_eq!(DateAnyForm::Long.form_for_year(), Some(DateYearForm::Long));
    assert_eq!(DateAnyForm::Short.form_for_year(), Some(DateYearForm::Short));
    assert_eq!(DateAnyForm::Numeric.form_for_year(), None);
    assert_eq!(DateAnyForm::NumericLeadingZeros.form_for_year(), None);
    assert_eq!(DateAnyForm::Ordinal.form_for_year(), None);
}

#[test]
fn date_strong_forms() {
    assert_eq!(
        DateStrongAnyForm::for_name(DatePartName::Day, DateAnyForm::Ordinal),
        Some(DateStrongAnyForm::Day(DateDayForm::Ordinal))
    );
    assert_eq!(DateStrongAnyForm::for_name(DatePartName::Year, DateAnyForm::Numeric), None);
    assert_eq!(
        DateStrongAnyForm::for_name(DatePartName::Month, DateAnyForm::Short),
        Some(DateStrongAnyForm::Month(DateMonthForm::Short))
    );
    assert_eq!(date_part(DatePartName::Year, Some(DateAnyForm::Short)).form(), Some(DateStrongAnyForm::Year(DateYearForm::Short)));
    assert_eq!(date_part(DatePartName::Year, Some(DateAnyForm::Ordinal)).form(), None);
    assert_eq!(date_part(DatePartName::Day, None).form(), None);
}

fn branch() -> ChooseBranch {
    ChooseBranch {
        disambiguate: None,
        is_numeric: None,
        is_uncertain_date: None,
        locator: None,
        position: None,
        type_: None,
        variable: None,
        match_: ChooseMatch::default(),
        children: Vec::new(),
    }
}

#[test]
fn choose_tests_in_order() {
    assert_eq!(branch().test(), None);

    let mut b = branch();
    b.variable = Some(vec![Variable::Name(NameVariable::Author)]);
    assert_eq!(b.test(), Some(ChooseTest::Variable(&[Variable::Name(NameVariable::Author)])));

    b.type_ = Some(vec![Kind::Book]);
    assert_eq!(b.test(), Some(ChooseTest::Type(&[Kind::Book])));

    b.position = Some(vec![TestPosition::Ibid]);
    assert_eq!(b.test(), Some(ChooseTest::Position(&[TestPosition::Ibid])));

    b.locator = Some(vec![Locator::Page]);
    assert_eq!(b.test(), Some(ChooseTest::Locator(&[Locator::Page])));

    b.is_uncertain_date = Some(vec![DateVariable::Issued]);
    assert_eq!(b.test(), Some(ChooseTest::IsUncertainDate(&[DateVariable::Issued])));

    b.is_numeric = Some(vec![Variable::Number(NumberVariable::Edition)]);
    assert_eq!(b.test(), Some(ChooseTest::IsNumeric(&[Variable::Number(NumberVariable::Edition)])));

    b.disambiguate = Some(Boolean::new(true));
    assert_eq!(b.test(), Some(ChooseTest::Disambiguate));

    b.disambiguate = Some(Boolean::new(false));
    assert_eq!(b.test(), None);
    assert_eq!(ChooseMatch::default(), ChooseMatch::All);
}

fn term(single: Option<&str>, multiple: Option<&str>, localization: Option<&str>) -> LocalizedTerm {
    LocalizedTerm {
        name: Term::NumberVariable(NumberVariable::Edition),
        localization: localization.map(|s| s.to_string()),
        single: single.map(|s| s.to_string()),
        multiple: multiple.map(|s| s.to_string()),
        form: TermForm::default(),
        match_: None,
        gender: None,
        gender_form: None,
    }
}

#[test]
fn localized_term_variants() {
    let t = term(Some("edition"), Some("editions"), Some("ed."));
    assert_eq!(t.single(), Some("edition"));
    assert_eq!(t.multiple(), Some("editions"));
    let only_single = term(Some("page"), None, Some("p."));
    assert_eq!(only_single.single(), Some("page"));
    assert_eq!(only_single.multiple(), Some("p."));
    let no_localization = term(Some("a"), Some("b"), None);
    assert_eq!(no_localization.single(), Some("a"));
    assert_eq!(no_localization.multiple(), Some("b"));
    let bare = term(None, None, Some("and"));
    assert_eq!(bare.single(), Some("and"));
    assert_eq!(bare.multiple(), Some("and"));
    let empty = term(None, None, None);
    assert_eq!(empty.single(), None);
    assert_eq!(empty.multiple(), None);
}

#[test]
fn term_form_fallbacks() {
    assert_eq!(TermForm::Long.fallback(), TermForm::Long);
    assert_eq!(TermForm::Short.fallback(), TermForm::Long);
    assert_eq!(TermForm::Verb.fallback(), TermForm::Long);
    assert_eq!(TermForm::VerbShort.fallback(), TermForm::Verb);
    assert_eq!(TermForm::Symbol.fallback(), TermForm::Short);
    for f in [TermForm::Long, TermForm::Short, TermForm::Verb, TermForm::VerbShort, TermForm::Symbol] {
        assert_eq!(f.fallback().fallback(), TermForm::Long);
    }
    assert_eq!(TermForm::default(), TermForm::Long);
}

#[test]
fn name_defaults() {
    let n = Name::default();
    assert_eq!(n.delimiter, ", ");
    assert_eq!(n.form, NameForm::Long);
    assert!(n.parts.is_empty());
    assert_eq!(n.options, InheritableNameOptions::default());
    let o = InheritableNameOptions::default();
    assert_eq!(o.sort_separator, ",");
    assert_eq!(o.delimiter_precedes_last, DelimiterBehavior::Contextual);
    assert_eq!(o.delimiter_precedes_et_al, DelimiterBehavior::Contextual);
    assert!(!*o.et_al_use_last);
    assert!(!*o.initialize);
    assert!(o.et_al_min.is_none() && o.initialize_with.is_none() && o.and.is_none());
}

#[test]
fn term_conversions() {
    assert_eq!(Term::from(EtAlTerm::EtAl), Term::Other(OtherTerm::EtAl));
    assert_eq!(Term::from(EtAlTerm::AndOthers), Term::Other(OtherTerm::AndOthers));
    assert_eq!(EtAlTerm::default(), EtAlTerm::EtAl);
    let v = Variable::Date(DateVariable::Accessed);
    assert_eq!(TextTarget::from(v), TextTarget::Variable(v));
    let t = Term::Locator(Locator::Chapter);
    assert_eq!(TextTarget::from(t), TextTarget::Term(t));
}

#[test]
fn recursive_layouts_clone() {
    let text = Text {
        target: TextTarget::Value("x".to_string()),
        formatting: Formatting::default(),
        affixes: Affixes::default(),
        display: None,
        quotes: Boolean::default(),
        strip_periods: Boolean::default(),
        text_case: None,
    };
    let inner = Group { children: vec![LayoutRenderingElement::Text(text)], delimiter: Some(" ".to_string()), display: None };
    let mut b = branch();
    b.children = vec![LayoutRenderingElement::Group(inner.clone())];
    let choose = citationberg::Choose { if_: b, else_if: vec![branch()], otherwise: None };
    let outer = Layout {
        elements: vec![LayoutRenderingElement::Group(inner), LayoutRenderingElement::Choose(choose)],
        delimiter: None,
    };
    let copy = outer.clone();
    assert_eq!(copy, outer);
}
