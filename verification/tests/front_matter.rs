use odilf_site::blog::{BlogMetadata, Language};
use odilf_site::date::CalendarDate;
use odilf_site::front_matter::{
    find, metadata_from_entries, metadata_from_front_matter, metadata_with_date, parse_metadata,
    Field, FrontMatter, MetadataError,
};

fn day(year: i16, month: i8, day: i8) -> CalendarDate {
    CalendarDate { year, month, day }
}

#[test]
fn full_front_matter_is_parsed() {
    let content = "---\ntitle: \"A post\"\ndate: 2024-06-01\ndraft: true\ntopics:\n  - rust\n  - verification\nlang: Spanish\nnumbered-headings: false\n---\n\nBody\n";
    let metadata = parse_metadata(content).unwrap();
    assert_eq!(metadata.title, "A post");
    assert_eq!(metadata.date, day(2024, 6, 1));
    assert_eq!(metadata.draft, Some(true));
    assert_eq!(metadata.topics, vec!["rust", "verification"]);
    assert_eq!(metadata.lang, Language::Spanish);
    assert_eq!(metadata.numbered_headings, Some(false));
}

#[test]
fn optional_fields_have_defaults() {
    let metadata = parse_metadata("---\ntitle: A\ndate: 2024-01-01\n---\nBody").unwrap();
    assert_eq!(metadata.title, "A");
    assert_eq!(metadata.date, day(2024, 1, 1));
    assert_eq!(metadata.draft, None);
    assert!(metadata.topics.is_empty());
    assert_eq!(metadata.lang, Language::English);
    assert_eq!(metadata.numbered_headings, None);
    assert!(!metadata.is_draft());
}

#[test]
fn file_without_front_matter_is_not_found() {
    assert_eq!(parse_metadata("Just a body\n").unwrap_err(), MetadataError::NotFound);
    assert_eq!(parse_metadata("").unwrap_err(), MetadataError::NotFound);
    assert_eq!(parse_metadata("---\n---\nBody").unwrap_err(), MetadataError::NotFound);
}

#[test]
fn malformed_front_matter_is_invalid() {
    // No date.
    assert_eq!(parse_metadata("---\ntitle: A\n---\n").unwrap_err(), MetadataError::Invalid);
    // No title.
    assert_eq!(parse_metadata("---\ndate: 2024-01-01\n---\n").unwrap_err(), MetadataError::Invalid);
    // A title that is no string.
    assert_eq!(
        parse_metadata("---\ntitle: 12\ndate: 2024-01-01\n---\n").unwrap_err(),
        MetadataError::Invalid
    );
    // A date that is none.
    assert_eq!(
        parse_metadata("---\ntitle: A\ndate: yesterday\n---\n").unwrap_err(),
        MetadataError::Invalid
    );
    // A draft flag that is no boolean.
    assert_eq!(
        parse_metadata("---\ntitle: A\ndate: 2024-01-01\ndraft: maybe\n---\n").unwrap_err(),
        MetadataError::Invalid
    );
    // Topics that are no list of strings.
    assert_eq!(
        parse_metadata("---\ntitle: A\ndate: 2024-01-01\ntopics: [a, 3]\n---\n").unwrap_err(),
        MetadataError::Invalid
    );
    // An unknown language.
    assert_eq!(
        parse_metadata("---\ntitle: A\ndate: 2024-01-01\nlang: Klingon\n---\n").unwrap_err(),
        MetadataError::Invalid
    );
    // A block that is a list, and one that does not parse.
    assert_eq!(parse_metadata("---\n- a\n- b\n---\n").unwrap_err(), MetadataError::Invalid);
    assert_eq!(parse_metadata("---\ntitle: [unclosed\n---\n").unwrap_err(), MetadataError::Invalid);
}

#[test]
fn unknown_keys_are_passed_over() {
    let metadata = parse_metadata("---\ntitle: A\ndate: 2024-01-01\nmood: fine\n---\n").unwrap();
    assert_eq!(metadata.title, "A");
}

#[test]
fn the_first_entry_with_a_key_is_found() {
    let entries = vec![
        (String::from("a"), Field::Flag(true)),
        (String::from("b"), Field::Null),
        (String::from("a"), Field::Flag(false)),
    ];
    assert!(matches!(find(&entries, "a"), Some(Field::Flag(true))));
    assert!(matches!(find(&entries, "b"), Some(Field::Null)));
    assert!(find(&entries, "c").is_none());
}

#[test]
fn metadata_is_drawn_from_entries() {
    let entries = vec![
        (String::from("date"), Field::Text(String::from("2023-12-31"))),
        (String::from("title"), Field::Text(String::from("Last day"))),
        (String::from("draft"), Field::Null),
        (String::from("topics"), Field::List(vec![Some(String::from("year"))])),
    ];
    let metadata = metadata_from_entries(&entries).unwrap();
    assert_eq!(metadata.title, "Last day");
    assert_eq!(metadata.date, day(2023, 12, 31));
    assert_eq!(metadata.draft, None);
    assert_eq!(metadata.topics, vec!["year"]);

    assert_eq!(
        metadata_from_front_matter(&FrontMatter::Absent).unwrap_err(),
        MetadataError::NotFound
    );
    assert_eq!(
        metadata_from_front_matter(&FrontMatter::Unreadable).unwrap_err(),
        MetadataError::Invalid
    );
    let with_other = vec![
        (String::from("title"), Field::Other),
        (String::from("date"), Field::Text(String::from("2023-12-31"))),
    ];
    assert_eq!(metadata_from_entries(&with_other).unwrap_err(), MetadataError::Invalid);
}

#[test]
fn written_fields_parse_back() {
    let metadata = BlogMetadata {
        title: String::from("Round & round"),
        date: day(2024, 2, 29),
        draft: Some(false),
        topics: vec![String::from("a"), String::from("b c")],
        lang: Language::Spanish,
        numbered_headings: None,
    };
    let entries = metadata.to_entries();
    assert!(matches!(find(&entries, "date"), Some(Field::Text(text)) if text == "2024-02-29"));
    let again = metadata_from_entries(&entries).unwrap();
    assert_eq!(again.title, metadata.title);
    assert_eq!(again.date, metadata.date);
    assert_eq!(again.draft, metadata.draft);
    assert_eq!(again.topics, metadata.topics);
    assert_eq!(again.lang, metadata.lang);
    assert_eq!(again.numbered_headings, metadata.numbered_headings);
}

#[test]
fn dates_are_written_in_iso_notation() {
    assert_eq!(day(2024, 1, 1).to_iso(), "2024-01-01");
    assert_eq!(day(33, 12, 25).to_iso(), "0033-12-25");
    assert_eq!(day(-44, 3, 15).to_iso(), "-000044-03-15");
    assert_eq!(day(9999, 10, 31).to_iso(), "9999-10-31");
}

#[test]
fn days_are_ordered_by_year_month_and_day() {
    assert!(day(2023, 12, 31).is_before(&day(2024, 1, 1)));
    assert!(day(2024, 1, 31).is_before(&day(2024, 2, 1)));
    assert!(day(2024, 2, 1).is_before(&day(2024, 2, 2)));
    assert!(!day(2024, 2, 2).is_before(&day(2024, 2, 2)));
    assert!(!day(2024, 2, 2).is_before(&day(2024, 2, 1)));
}

#[test]
fn metadata_takes_the_day_that_was_read() {
    let entries = vec![
        (String::from("title"), Field::Text(String::from("T"))),
        (String::from("date"), Field::Text(String::from("not looked at"))),
        (String::from("lang"), Field::Text(String::from("Spanish"))),
    ];
    let metadata = metadata_with_date(&entries, Some(day(2020, 5, 17))).unwrap();
    assert_eq!(metadata.title, "T");
    assert_eq!(metadata.date, day(2020, 5, 17));
    assert_eq!(metadata.lang, Language::Spanish);
    assert_eq!(metadata_with_date(&entries, None).unwrap_err(), MetadataError::Invalid);
    assert_eq!(
        metadata_with_date(&Vec::new(), Some(day(2020, 5, 17))).unwrap_err(),
        MetadataError::Invalid
    );
}
