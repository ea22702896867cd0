use odilf_site::blog::{sort_by_date, BlogEntry, BlogMetadata, Language};
use odilf_site::date::CalendarDate;
use odilf_site::date::is_instant;
use odilf_site::feed::{
    atom, atom_built_at, atom_document, atom_entry, keep_instant, rss, rss_built_at, rss_document,
    rss_item, FeedError,
};

fn entry(slug: &str, title: &str, year: i16, month: i8, day: i8) -> BlogEntry {
    BlogEntry {
        slug: String::from(slug),
        html: String::from("<p>Body & soul</p>\n"),
        summary: String::from("Body & soul"),
        word_count: 3,
        metadata: BlogMetadata {
            title: String::from(title),
            date: CalendarDate { year, month, day },
            draft: None,
            topics: Vec::new(),
            lang: Language::English,
            numbered_headings: None,
        },
    }
}

#[test]
fn rss_item_with_and_without_a_date() {
    let post = entry("first", "Q&A <1>", 2024, 1, 1);
    assert_eq!(
        rss_item(&post, &Some(String::from("Mon, 1 Jan 2024 00:00:00 +0100"))),
        "<item><title>Q&amp;A &lt;1&gt;</title><link>https://odilf.com/blog/first</link><description>Body &amp; soul</description><pubDate>Mon, 1 Jan 2024 00:00:00 +0100</pubDate><guid isPermaLink=\"true\">https://odilf.com/blog/first</guid></item>"
    );
    assert_eq!(
        rss_item(&post, &None),
        "<item><title>Q&amp;A &lt;1&gt;</title><link>https://odilf.com/blog/first</link><description>Body &amp; soul</description><guid isPermaLink=\"true\">https://odilf.com/blog/first</guid></item>"
    );
}

#[test]
fn atom_entry_with_and_without_a_date() {
    let post = entry("first", "Say \"hi\"", 2024, 1, 1);
    assert_eq!(
        atom_entry(&post, &Some(String::from("2024-01-01T00:00:00+01:00"))),
        "<entry><title>Say &quot;hi&quot;</title><link href=\"https://odilf.com/blog/first\"></link><id>https://odilf.com/blog/first</id><updated>2024-01-01T00:00:00+01:00</updated><summary>Body &amp; soul</summary><content type=\"html\"><![CDATA[<p>Body & soul</p>\n]]></content></entry>"
    );
    assert_eq!(
        atom_entry(&post, &None),
        "<entry><title>Say &quot;hi&quot;</title><link href=\"https://odilf.com/blog/first\"></link><id>https://odilf.com/blog/first</id><summary>Body &amp; soul</summary><content type=\"html\"><![CDATA[<p>Body & soul</p>\n]]></content></entry>"
    );
}

#[test]
fn rss_document_of_no_entries() {
    assert_eq!(
        rss_document(&Vec::new(), &Vec::new(), "Sat, 1 Jun 2024 12:00:00 +0000"),
        "<?xml version=\"1.0\" encoding=\"UTF-8\"?><rss version=\"2.0\" xmlns:atom=\"http://www.w3.org/2005/Atom\"><channel><title>Odilf's blog</title><link>https://odilf.com/blog</link><description>Odilf's personal blog.</description><language>en</language><webMaster>odysseas.maheras@gmail.com (Odilf)</webMaster><lastBuildDate>Sat, 1 Jun 2024 12:00:00 +0000</lastBuildDate><generator>Custom Generator at https://github.com/odilf/odilf.com</generator><atom:link href=\"https://odilf.com/blog/rss.xml\" rel=\"self\" type=\"application/rss+xml\"></atom:link></channel></rss>"
    );
}

#[test]
fn atom_document_of_no_entries() {
    assert_eq!(
        atom_document(&Vec::new(), &Vec::new(), "2024-06-01T12:00:00Z"),
        "<?xml version=\"1.0\" encoding=\"UTF-8\"?><feed xmlns=\"http://www.w3.org/2005/Atom\"><title>Odilf's blog</title><link href=\"https://odilf.com/blog\"></link><link href=\"https://odilf.com/blog/atom.xml\" rel=\"self\"></link><id>https://odilf.com/blog</id><author><name>Odilf</name><email>odysseas.maheras@gmail.com</email></author><subtitle>Odilf's personal blog.</subtitle><updated>2024-06-01T12:00:00Z</updated><generator uri=\"https://github.com/odilf/odilf.com\">Custom Generator</generator></feed>"
    );
}

#[test]
fn documents_hold_the_items_in_the_order_given() {
    let entries = vec![entry("b", "B", 2024, 6, 1), entry("a", "A", 2024, 1, 1)];
    let stamps = vec![Some(String::from("then"))];
    let doc = rss_document(&entries, &stamps, "now");
    let first = rss_item(&entries[0], &stamps[0]);
    let second = rss_item(&entries[1], &None);
    assert!(doc.ends_with(&format!("{first}{second}</channel></rss>")));
    let doc = atom_document(&entries, &stamps, "now");
    let first = atom_entry(&entries[0], &stamps[0]);
    let second = atom_entry(&entries[1], &None);
    assert!(doc.ends_with(&format!("{first}{second}</feed>")));
}

#[test]
fn feed_lists_the_newer_entry_first_with_its_date() {
    let entries = sort_by_date(vec![entry("old", "Old", 2024, 1, 1), entry("new", "New", 2024, 6, 1)]);
    let doc = rss(&entries).unwrap();
    let new = doc.find("<title>New</title>").unwrap();
    let old = doc.find("<title>Old</title>").unwrap();
    assert!(new < old);
    assert!(doc.contains("<pubDate>Sat, 1 Jun 2024 00:00:00 "), "{doc}");
    assert!(doc.contains("<pubDate>Mon, 1 Jan 2024 00:00:00 "), "{doc}");
    let built = doc.find("<lastBuildDate>").unwrap() + "<lastBuildDate>".len();
    let built_end = doc.find("</lastBuildDate>").unwrap();
    assert!(doc[built..built_end].contains(" 20"), "{doc}");

    let doc = atom(&entries).unwrap();
    let new = doc.find("<title>New</title>").unwrap();
    let old = doc.find("<title>Old</title>").unwrap();
    assert!(new < old);
    assert!(doc.contains("<updated>2024-06-01T00:00:00"), "{doc}");
    let built = doc.find("<updated>").unwrap() + "<updated>".len();
    assert!(doc[built..].starts_with("20"), "{doc}");
    assert!(doc[built..doc.find("</updated>").unwrap()].ends_with('Z'), "{doc}");
    for (start, _) in doc.match_indices("<updated>") {
        let from = start + "<updated>".len();
        let to = from + doc[from..].find("</updated>").unwrap();
        assert!(is_instant(&doc[from..to]), "{}", &doc[from..to]);
    }
    assert_eq!(doc.matches("<updated>").count(), 3);
}

#[test]
fn entry_items_carry_the_day() {
    let post = entry("p", "P", 2024, 6, 1);
    assert!(post.rss().contains("<pubDate>Sat, 1 Jun 2024 00:00:00 "));
    let item = post.atom();
    let from = item.find("<updated>").unwrap() + "<updated>".len();
    let to = item.find("</updated>").unwrap();
    assert!(item[from..to].starts_with("2024-06-01T00:00:00"), "{item}");
    assert_eq!(item[from..to].chars().count(), 25, "{item}");
    assert!(is_instant(&item[from..to]), "{item}");
    assert!(!item[from..to].contains('['));
    let nowhere = entry("n", "N", 2024, 2, 30);
    assert!(!nowhere.rss().contains("<pubDate>"));
    assert!(!nowhere.atom().contains("<updated>"));
}

#[test]
fn feed_is_written_exactly_where_the_clock_gave_a_moment() {
    let entries = vec![entry("b", "B", 2024, 6, 1)];
    let stamps = vec![Some(String::from("then"))];
    let doc = rss_built_at(&entries, &stamps, Some(String::from("now"))).unwrap();
    assert_eq!(doc, rss_document(&entries, &stamps, "now"));
    assert!(doc.contains("<lastBuildDate>now</lastBuildDate>"));
    assert_eq!(rss_built_at(&entries, &stamps, None).unwrap_err(), FeedError::Clock);
    assert_eq!(rss_built_at(&Vec::new(), &Vec::new(), None).unwrap_err(), FeedError::Clock);
}

#[test]
fn instants_are_told_by_their_form() {
    for instant in [
        "2024-06-01T00:00:00+02:00",
        "2024-06-01T00:00:00-11:30",
        "2024-06-01T23:59:60Z",
        "2024-06-01T12:00:00.5Z",
        "2024-06-01T12:00:00.123456789+00:00",
        "0000-01-01T00:00:00Z",
    ] {
        assert!(is_instant(instant), "{instant}");
    }
    for other in [
        "",
        "2024-06-01",
        "2024-06-01T00:00:00",
        "2024-06-01T00:00:00+02:00[+02:00]",
        "2024-06-01T00:00:00+02:00[Europe/Madrid]",
        "2024-06-01 00:00:00+02:00",
        "2024-06-01T00:00:00+0200",
        "2024-06-01T00:00:00.Z",
        "2024-06-01T00:00:00.5",
        "2024-06-01T00:00:00z",
        "2024-13-01T00:00:00Z",
        "2024-00-01T00:00:00Z",
        "2024-06-32T00:00:00Z",
        "2024-06-00T00:00:00Z",
        "2024-06-01T24:00:00Z",
        "2024-06-01T00:60:00Z",
        "2024-06-01T00:00:61Z",
        "2024-06-01T00:00:00+24:00",
        "2024-06-01T00:00:00+02:60",
        "-002024-06-01T00:00:00Z",
        "24-06-01T00:00:00Z",
        "2024-06-01T00:00:00ZZ",
        "Sat, 1 Jun 2024 00:00:00 +0200",
    ] {
        assert!(!is_instant(other), "{other}");
    }
}

#[test]
fn only_instants_are_kept() {
    assert_eq!(
        keep_instant(Some(String::from("2024-06-01T00:00:00+02:00"))).as_deref(),
        Some("2024-06-01T00:00:00+02:00")
    );
    assert_eq!(keep_instant(Some(String::from("2024-06-01T00:00:00+02:00[+02:00]"))), None);
    assert_eq!(keep_instant(None), None);
}

#[test]
fn atom_feed_is_written_exactly_where_the_clock_gave_an_instant() {
    let entries = vec![entry("b", "B", 2024, 6, 1)];
    let stamps = vec![Some(String::from("2024-06-01T00:00:00+02:00"))];
    let now = "2024-06-02T10:00:00Z";
    let doc = atom_built_at(&entries, &stamps, Some(String::from(now))).unwrap();
    assert_eq!(doc, atom_document(&entries, &stamps, now));
    assert_eq!(
        atom_built_at(&entries, &stamps, Some(String::from("now"))).unwrap_err(),
        FeedError::Clock
    );
    assert_eq!(atom_built_at(&entries, &stamps, None).unwrap_err(), FeedError::Clock);
}
