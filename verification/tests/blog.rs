use odilf_site::blog::{sort_by_date, BlogEntry, BlogMetadata, Language};
use odilf_site::date::CalendarDate;
use odilf_site::markdown::MarkdownData;

fn entry(slug: &str, year: i16, month: i8, day: i8) -> BlogEntry {
    BlogEntry {
        slug: String::from(slug),
        html: String::new(),
        summary: String::new(),
        word_count: 0,
        metadata: BlogMetadata {
            title: String::from(slug),
            date: CalendarDate { year, month, day },
            draft: None,
            topics: Vec::new(),
            lang: Language::English,
            numbered_headings: None,
        },
    }
}

fn slugs(entries: &[BlogEntry]) -> Vec<&str> {
    entries.iter().map(|entry| entry.slug.as_str()).collect()
}

#[test]
fn language_names_for_html() {
    assert_eq!(Language::English.html_name(), "en");
    assert_eq!(Language::Spanish.html_name(), "es");
    assert_eq!(Language::default(), Language::English);
}

#[test]
fn entries_are_sorted_newest_first_and_stably() {
    let sorted = sort_by_date(vec![
        entry("a", 2024, 1, 1),
        entry("b", 2024, 6, 1),
        entry("c", 2024, 1, 1),
        entry("d", 2023, 12, 31),
        entry("e", 2024, 6, 1),
    ]);
    assert_eq!(slugs(&sorted), vec!["b", "e", "a", "c", "d"]);
    assert!(sort_by_date(Vec::new()).is_empty());
}

#[test]
fn valid_file_gives_an_entry() {
    let mut links = Vec::new();
    let content = "---\ntitle: \"A\"\ndate: 2024-01-01\n---\n\n# Intro\n\nSome words ![pic](pic.png) here.\n";
    let entry = BlogEntry::from_slug_and_content("a-post", content, &mut links, false)
        .unwrap()
        .unwrap();
    assert_eq!(entry.slug, "a-post");
    assert_eq!(entry.metadata.title, "A");
    assert_eq!(entry.metadata.date, CalendarDate { year: 2024, month: 1, day: 1 });
    assert_eq!(
        entry.html,
        "<h2>Intro</h2>\n<p>Some words <figure><img src=\"/blog/pic.png\" alt=\"pic\" /></figure> here.</p>\n"
    );
    assert_eq!(entry.word_count, 5);
    assert_eq!(links, vec!["pic.png"]);
}

#[test]
fn file_without_front_matter_gives_no_entry() {
    let mut links = Vec::new();
    let loaded =
        BlogEntry::from_slug_and_content("plain", "No front ![x](x.png) matter", &mut links, true)
            .unwrap();
    assert!(loaded.is_none());
    assert!(links.is_empty());
}

#[test]
fn draft_is_left_out_unless_drafts_are_included() {
    let content = "---\ntitle: D\ndate: 2024-01-01\ndraft: true\ntopics: [life]\n---\n![x](x.png)\n";
    let mut links = Vec::new();
    let published = BlogEntry::from_slug_and_content("d", content, &mut links, false).unwrap();
    assert!(published.is_none());
    assert!(links.is_empty());

    let preview = BlogEntry::from_slug_and_content("d", content, &mut links, true)
        .unwrap()
        .unwrap();
    assert_eq!(links, vec!["x.png"]);
    assert_eq!(preview.summary_classes(true), "blog-entry topic-life draft-post");
    assert_eq!(preview.summary_classes(false), "blog-entry topic-life");
}

#[test]
fn entry_that_is_no_draft_is_not_marked() {
    let mut plain = entry("p", 2024, 1, 1);
    plain.metadata.topics = vec![String::from("a"), String::from("b")];
    assert_eq!(plain.summary_classes(true), "blog-entry topic-a topic-b");
    plain.metadata.draft = Some(false);
    assert_eq!(plain.summary_classes(true), "blog-entry topic-a topic-b");
}

#[test]
fn tags_are_the_topics_and_the_length() {
    let mut tagged = entry("t", 2024, 1, 1);
    tagged.metadata.topics = vec![String::from("a"), String::from("b")];
    assert_eq!(tagged.num_tags(), 3);
    assert_eq!(tagged.first_row_tags(), 2);
    assert_eq!(tagged.tags("1.2k words"), vec!["a", "b", "1.2k words"]);
    let bare = entry("u", 2024, 1, 1);
    assert_eq!(bare.num_tags(), 1);
    assert_eq!(bare.first_row_tags(), 1);
    assert_eq!(bare.tags("0.0k words"), vec!["0.0k words"]);
}

#[test]
fn drafts_are_admitted_only_where_they_are_included() {
    let mut post = entry("p", 2024, 1, 1).metadata;
    assert!(post.is_admitted(false));
    assert!(post.is_admitted(true));
    post.draft = Some(false);
    assert!(post.is_admitted(false));
    post.draft = Some(true);
    assert!(!post.is_admitted(false));
    assert!(post.is_admitted(true));
}

#[test]
fn an_entry_is_put_together_from_its_parts() {
    let data = MarkdownData {
        html: String::from("<p>h</p>"),
        summary: String::from("s"),
        word_count: 7,
    };
    let built = BlogEntry::from_parts("slug", entry("m", 2024, 2, 3).metadata, data);
    assert_eq!(built.slug, "slug");
    assert_eq!(built.html, "<p>h</p>");
    assert_eq!(built.summary, "s");
    assert_eq!(built.word_count, 7);
    assert_eq!(built.metadata.title, "m");
}

#[test]
fn headings_are_numbered_unless_the_front_matter_says_otherwise() {
    let mut post = entry("p", 2024, 1, 1).metadata;
    assert!(post.numbers_headings());
    post.numbered_headings = Some(true);
    assert!(post.numbers_headings());
    post.numbered_headings = Some(false);
    assert!(!post.numbers_headings());
}
