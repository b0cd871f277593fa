use citationberg::taxonomy::OtherTerm;

#[test]
fn numbered_terms_are_read() {
    assert_eq!(OtherTerm::from_numbered_name("ordinal-00"), Some(OtherTerm::OrdinalN(0)));
    assert_eq!(OtherTerm::from_numbered_name("ordinal-07"), Some(OtherTerm::OrdinalN(7)));
    assert_eq!(OtherTerm::from_numbered_name("ordinal-99"), Some(OtherTerm::OrdinalN(99)));
    assert_eq!(OtherTerm::from_numbered_name("long-ordinal-01"), Some(OtherTerm::LongOrdinal(1)));
    assert_eq!(OtherTerm::from_numbered_name("long-ordinal-10"), Some(OtherTerm::LongOrdinal(10)));
    assert_eq!(OtherTerm::from_numbered_name("month-01"), Some(OtherTerm::Month(1)));
    assert_eq!(OtherTerm::from_numbered_name("month-12"), Some(OtherTerm::Month(12)));
    assert_eq!(OtherTerm::from_numbered_name("season-04"), Some(OtherTerm::Season(4)));
}

#[test]
fn numbered_terms_out_of_range_or_malformed() {
    assert_eq!(OtherTerm::from_numbered_name("long-ordinal-00"), None);
    assert_eq!(OtherTerm::from_numbered_name("long-ordinal-11"), None);
    assert_eq!(OtherTerm::from_numbered_name("month-00"), None);
    assert_eq!(OtherTerm::from_numbered_name("month-13"), None);
    assert_eq!(OtherTerm::from_numbered_name("season-05"), None);
    assert_eq!(OtherTerm::from_numbered_name("season-00"), None);
    assert_eq!(OtherTerm::from_numbered_name("ordinal"), None);
    assert_eq!(OtherTerm::from_numbered_name("ordinal-1"), None);
    assert_eq!(OtherTerm::from_numbered_name("ordinal-100"), None);
    assert_eq!(OtherTerm::from_numbered_name("ordinal-a1"), None);
    assert_eq!(OtherTerm::from_numbered_name("Month-01"), None);
    assert_eq!(OtherTerm::from_numbered_name(""), None);
    assert_eq!(OtherTerm::from_numbered_name("et-al"), None);
}

