//! The feeds of the blog: an RSS 2.0 and an Atom 1.0 document, one item for
//! each entry in the order given.

use vstd::prelude::*;
use vstd::string::*;

use crate::blog::{BlogEntry, BlogEntryView};
use crate::date::{is_instant, is_instant_text, CalendarDate};

verus! {

/// How one character stands in markup: the four characters that markup
/// reads as its own are written as entities, any other as itself.
pub open spec fn escaped_char(c: char) -> Seq<char> {
    if c == '&' {
        "&amp;"@
    } else if c == '<' {
        "&lt;"@
    } else if c == '>' {
        "&gt;"@
    } else if c == '"' {
        "&quot;"@
    } else {
        seq![c]
    }
}

/// A text as it stands in markup.
pub open spec fn escaped(text: Seq<char>) -> Seq<char>
    decreases text.len(),
{
    if text.len() == 0 {
        Seq::empty()
    } else {
        escaped(text.drop_last()) + escaped_char(text.last())
    }
}

/// Whether a character is one that markup reads as its own when it stands
/// alone: an angle bracket or a double quote.
pub open spec fn is_markup_char(c: char) -> bool {
    c == '<' || c == '>' || c == '"'
}

/// An escaped text holds no angle bracket and no double quote, whatever the
/// text: it cannot open or close a tag, nor end an attribute.
pub proof fn lemma_escaped_is_inert(text: Seq<char>)
    ensures
        forall|i: int| 0 <= i < escaped(text).len() ==> !is_markup_char(#[trigger] escaped(text)[i]),
    decreases text.len(),
{
    if text.len() > 0 {
        lemma_escaped_is_inert(text.drop_last());
        reveal_strlit("&amp;");
        reveal_strlit("&lt;");
        reveal_strlit("&gt;");
        reveal_strlit("&quot;");
        let head = escaped(text.drop_last());
        let tail = escaped_char(text.last());
        assert forall|j: int| 0 <= j < tail.len() implies !is_markup_char(#[trigger] tail[j]) by {}
        assert forall|i: int| 0 <= i < escaped(text).len() implies !is_markup_char(
            #[trigger] escaped(text)[i],
        ) by {
            if i >= head.len() {
                assert(escaped(text)[i] == tail[i - head.len()]);
            } else {
                assert(escaped(text)[i] == head[i]);
            }
        }
    }
}

/// Escapes a text for markup with maud's `Render` for `str`, which writes
/// `&`, `<`, `>` and `"` as entities and passes every other character on.
#[verifier::external_body]
fn escape(text: &str) -> (markup: String)
    ensures
        markup@ == escaped(text@),
{
    maud::Render::render(text).into_string()
}

/// Midnight at the start of `date` in the system's time zone, in the
/// notation of RFC 2822, with the offset that the zone had on that day.
/// `None` where the day does not exist or cannot be written so; a day that
/// the calendar does not have is refused by `jiff::civil::Date::new`. Made
/// with `jiff::civil::Date::to_zoned` and `jiff::fmt::rfc2822::to_string`;
/// what comes back depends on the machine's time zone.
#[verifier::external_body]
fn publication_stamp(date: CalendarDate) -> (stamp: Option<String>)
    ensures
        !date.exists_day() ==> stamp is None,
{
    let day = jiff::civil::Date::new(date.year, date.month, date.day).ok()?;
    let zoned = day.to_zoned(jiff::tz::TimeZone::system()).ok()?;
    jiff::fmt::rfc2822::to_string(&zoned).ok()
}

/// Midnight at the start of `date` in the system's time zone, as an instant
/// with the offset that the zone had on that day, written with
/// `jiff::Timestamp::display_with_offset`. `None` where the day does not
/// exist; a day that the calendar does not have is refused by
/// `jiff::civil::Date::new`. What comes back depends on the machine's time
/// zone.
#[verifier::external_body]
fn update_stamp(date: CalendarDate) -> (stamp: Option<String>)
    ensures
        !date.exists_day() ==> stamp is None,
{
    let day = jiff::civil::Date::new(date.year, date.month, date.day).ok()?;
    let zoned = day.to_zoned(jiff::tz::TimeZone::system()).ok()?;
    Some(zoned.timestamp().display_with_offset(zoned.offset()).to_string())
}

/// The present moment in the notation of RFC 2822, from the system's clock
/// through `jiff::Zoned::try_from`. `None` where the clock's time is none
/// that can be written so.
#[verifier::external_body]
fn build_stamp() -> (stamp: Option<String>) {
    let now = jiff::Zoned::try_from(std::time::SystemTime::now()).ok()?;
    jiff::fmt::rfc2822::to_string(&now).ok()
}

/// The present moment as an instant in UTC, from the system's clock through
/// `jiff::Timestamp::try_from`. `None` where the clock's time lies outside
/// the years that an instant can hold.
#[verifier::external_body]
fn current_instant() -> (stamp: Option<String>) {
    let now = jiff::Timestamp::try_from(std::time::SystemTime::now()).ok()?;
    Some(now.to_string())
}

/// A date text as far as it may stand in an Atom document: an instant in
/// the notation of RFC 3339, and none at all where it is no such instant.
pub open spec fn instant_only(stamp: Option<Seq<char>>) -> Option<Seq<char>> {
    match stamp {
        Some(text) => if is_instant_text(text) {
            stamp
        } else {
            None
        },
        None => None,
    }
}

/// Keeps a date text only where it is an instant in the notation of
/// RFC 3339.
pub fn keep_instant(stamp: Option<String>) -> (kept: Option<String>)
    ensures
        stamp_view(kept) == instant_only(stamp_view(stamp)),
        kept matches Some(text) ==> stamp == kept,
{
    match stamp {
        Some(text) => if is_instant(text.as_str()) {
            Some(text)
        } else {
            None
        },
        None => None,
    }
}

/// The address of an entry.
pub open spec fn entry_url(slug: Seq<char>) -> Seq<char> {
    "https://odilf.com/blog/"@ + slug
}

/// The `pubDate` of an RSS item, left out where the entry has no date to
/// show.
pub open spec fn pub_date_text(stamp: Option<Seq<char>>) -> Seq<char> {
    match stamp {
        Some(date) => "<pubDate>"@ + escaped(date) + "</pubDate>"@,
        None => Seq::empty(),
    }
}

/// The RSS item of an entry.
pub open spec fn rss_item_text(entry: BlogEntryView, stamp: Option<Seq<char>>) -> Seq<char> {
    "<item><title>"@ + escaped(entry.metadata.title) + "</title><link>"@ + escaped(
        entry_url(entry.slug),
    ) + "</link><description>"@ + escaped(entry.summary) + "</description>"@ + pub_date_text(
        stamp,
    ) + "<guid isPermaLink=\"true\">"@ + escaped(entry_url(entry.slug)) + "</guid></item>"@
}

/// The `updated` of an Atom entry, left out where the entry has no date to
/// show.
pub open spec fn updated_text(stamp: Option<Seq<char>>) -> Seq<char> {
    match stamp {
        Some(date) => "<updated>"@ + escaped(date) + "</updated>"@,
        None => Seq::empty(),
    }
}

/// The Atom entry of an entry. The rendered post goes in as it is, inside a
/// CDATA section.
pub open spec fn atom_entry_text(entry: BlogEntryView, stamp: Option<Seq<char>>) -> Seq<char> {
    "<entry><title>"@ + escaped(entry.metadata.title) + "</title><link href=\""@ + escaped(
        entry_url(entry.slug),
    ) + "\"></link><id>"@ + escaped(entry_url(entry.slug)) + "</id>"@ + updated_text(stamp)
        + "<summary>"@ + escaped(entry.summary) + "</summary><content type=\"html\"><![CDATA["@
        + entry.html + "]]></content></entry>"@
}

/// The value of an optional text.
pub open spec fn stamp_view(stamp: Option<String>) -> Option<Seq<char>> {
    match stamp {
        Some(text) => Some(text@),
        None => None,
    }
}

/// The date texts of a list of entries; an entry beyond the list has none.
pub open spec fn stamp_at(stamps: Seq<Option<String>>, i: int) -> Option<Seq<char>> {
    if 0 <= i < stamps.len() {
        stamp_view(stamps[i])
    } else {
        None
    }
}

/// The address of an entry.
fn url_of(slug: &str) -> (url: String)
    ensures
        url@ == entry_url(slug@),
{
    let mut url = String::from_str("https://odilf.com/blog/");
    url.append(slug);
    url
}

/// Writes the RSS item of an entry whose date, if it has one to show, is
/// already a text.
pub fn rss_item(entry: &BlogEntry, stamp: &Option<String>) -> (item: String)
    ensures
        item@ == rss_item_text(entry@, stamp_view(*stamp)),
{
    let url = escape(url_of(entry.slug.as_str()).as_str());
    let mut item = String::from_str("<item><title>");
    item.append(escape(entry.metadata.title.as_str()).as_str());
    item.append("</title><link>");
    item.append(url.as_str());
    item.append("</link><description>");
    item.append(escape(entry.summary.as_str()).as_str());
    item.append("</description>");
    match stamp {
        Some(date) => {
            let mut tag = String::from_str("<pubDate>");
            tag.append(escape(date.as_str()).as_str());
            tag.append("</pubDate>");
            item.append(tag.as_str());
        },
        None => {
            assert(item@ + Seq::<char>::empty() =~= item@);
        },
    }
    item.append("<guid isPermaLink=\"true\">");
    item.append(url.as_str());
    item.append("</guid></item>");
    item
}

/// Writes the Atom entry of an entry whose date, if it has one to show, is
/// already a text.
pub fn atom_entry(entry: &BlogEntry, stamp: &Option<String>) -> (item: String)
    ensures
        item@ == atom_entry_text(entry@, stamp_view(*stamp)),
{
    let url = escape(url_of(entry.slug.as_str()).as_str());
    let mut item = String::from_str("<entry><title>");
    item.append(escape(entry.metadata.title.as_str()).as_str());
    item.append("</title><link href=\"");
    item.append(url.as_str());
    item.append("\"></link><id>");
    item.append(url.as_str());
    item.append("</id>");
    match stamp {
        Some(date) => {
            let mut tag = String::from_str("<updated>");
            tag.append(escape(date.as_str()).as_str());
            tag.append("</updated>");
            item.append(tag.as_str());
        },
        None => {
            assert(item@ + Seq::<char>::empty() =~= item@);
        },
    }
    item.append("<summary>");
    item.append(escape(entry.summary.as_str()).as_str());
    item.append("</summary><content type=\"html\"><![CDATA[");
    item.append(entry.html.as_str());
    item.append("]]></content></entry>");
    item
}

/// The values of a list of entries.
pub open spec fn entry_views(entries: Seq<BlogEntry>) -> Seq<BlogEntryView> {
    entries.map_values(|entry: BlogEntry| entry@)
}

/// The RSS items of the first `k` entries, one after the other.
pub open spec fn rss_items(
    entries: Seq<BlogEntryView>,
    stamps: Seq<Option<String>>,
    k: nat,
) -> Seq<char>
    decreases k,
{
    if k == 0 || k > entries.len() {
        Seq::empty()
    } else {
        rss_items(entries, stamps, (k - 1) as nat) + rss_item_text(
            entries[k - 1],
            stamp_at(stamps, k - 1),
        )
    }
}

/// The Atom entries of the first `k` entries, one after the other.
pub open spec fn atom_entries(
    entries: Seq<BlogEntryView>,
    stamps: Seq<Option<String>>,
    k: nat,
) -> Seq<char>
    decreases k,
{
    if k == 0 || k > entries.len() {
        Seq::empty()
    } else {
        atom_entries(entries, stamps, (k - 1) as nat) + atom_entry_text(
            entries[k - 1],
            stamp_at(stamps, k - 1),
        )
    }
}

/// What an RSS document holds before its items: the channel's own fields,
/// with the moment at which the feed was built.
pub open spec fn rss_head(built: Seq<char>) -> Seq<char> {
    "<?xml version=\"1.0\" encoding=\"UTF-8\"?><rss version=\"2.0\" xmlns:atom=\"http://www.w3.org/2005/Atom\"><channel><title>Odilf's blog</title><link>https://odilf.com/blog</link><description>Odilf's personal blog.</description><language>en</language><webMaster>odysseas.maheras@gmail.com (Odilf)</webMaster><lastBuildDate>"@
        + escaped(built)
        + "</lastBuildDate><generator>Custom Generator at https://github.com/odilf/odilf.com</generator><atom:link href=\"https://odilf.com/blog/rss.xml\" rel=\"self\" type=\"application/rss+xml\"></atom:link>"@
}

/// The RSS document of a list of entries, in the order of the list.
pub open spec fn rss_text(
    entries: Seq<BlogEntryView>,
    stamps: Seq<Option<String>>,
    built: Seq<char>,
) -> Seq<char> {
    rss_head(built) + rss_items(entries, stamps, entries.len()) + "</channel></rss>"@
}

/// What an Atom document holds before its entries: the feed's own fields,
/// with the moment at which the feed was built.
pub open spec fn atom_head(built: Seq<char>) -> Seq<char> {
    "<?xml version=\"1.0\" encoding=\"UTF-8\"?><feed xmlns=\"http://www.w3.org/2005/Atom\"><title>Odilf's blog</title><link href=\"https://odilf.com/blog\"></link><link href=\"https://odilf.com/blog/atom.xml\" rel=\"self\"></link><id>https://odilf.com/blog</id><author><name>Odilf</name><email>odysseas.maheras@gmail.com</email></author><subtitle>Odilf's personal blog.</subtitle><updated>"@
        + escaped(built)
        + "</updated><generator uri=\"https://github.com/odilf/odilf.com\">Custom Generator</generator>"@
}

/// The Atom document of a list of entries, in the order of the list.
pub open spec fn atom_text(
    entries: Seq<BlogEntryView>,
    stamps: Seq<Option<String>>,
    built: Seq<char>,
) -> Seq<char> {
    atom_head(built) + atom_entries(entries, stamps, entries.len()) + "</feed>"@
}

/// Writes the RSS document of `entries`, in their order, from the date
/// texts of the entries and the moment at which the feed is built.
pub fn rss_document(entries: &Vec<BlogEntry>, stamps: &Vec<Option<String>>, built: &str) -> (doc:
    String)
    ensures
        doc@ == rss_text(entry_views(entries@), stamps@, built@),
{
    let mut doc = String::from_str(
        "<?xml version=\"1.0\" encoding=\"UTF-8\"?><rss version=\"2.0\" xmlns:atom=\"http://www.w3.org/2005/Atom\"><channel><title>Odilf's blog</title><link>https://odilf.com/blog</link><description>Odilf's personal blog.</description><language>en</language><webMaster>odysseas.maheras@gmail.com (Odilf)</webMaster><lastBuildDate>",
    );
    doc.append(escape(built).as_str());
    doc.append(
        "</lastBuildDate><generator>Custom Generator at https://github.com/odilf/odilf.com</generator><atom:link href=\"https://odilf.com/blog/rss.xml\" rel=\"self\" type=\"application/rss+xml\"></atom:link>",
    );
    let ghost head = doc@;
    let ghost all = entry_views(entries@);
    let none: Option<String> = None;
    let mut i: usize = 0;
    proof {
        assert(head + Seq::<char>::empty() =~= head);
    }
    while i < entries.len()
        invariant
            i <= entries.len(),
            all == entry_views(entries@),
            none is None,
            doc@ == head + rss_items(all, stamps@, i as nat),
        decreases entries.len() - i,
    {
        let stamp = if i < stamps.len() {
            &stamps[i]
        } else {
            &none
        };
        let item = rss_item(&entries[i], stamp);
        proof {
            assert(all[i as int] == entries@[i as int]@);
            assert(head + rss_items(all, stamps@, i as nat) + item@ =~= head + rss_items(
                all,
                stamps@,
                (i + 1) as nat,
            ));
        }
        doc.append(item.as_str());
        i = i + 1;
    }
    doc.append("</channel></rss>");
    doc
}

/// Writes the Atom document of `entries`, in their order, from the date
/// texts of the entries and the moment at which the feed is built.
pub fn atom_document(entries: &Vec<BlogEntry>, stamps: &Vec<Option<String>>, built: &str) -> (doc:
    String)
    ensures
        doc@ == atom_text(entry_views(entries@), stamps@, built@),
{
    let mut doc = String::from_str(
        "<?xml version=\"1.0\" encoding=\"UTF-8\"?><feed xmlns=\"http://www.w3.org/2005/Atom\"><title>Odilf's blog</title><link href=\"https://odilf.com/blog\"></link><link href=\"https://odilf.com/blog/atom.xml\" rel=\"self\"></link><id>https://odilf.com/blog</id><author><name>Odilf</name><email>odysseas.maheras@gmail.com</email></author><subtitle>Odilf's personal blog.</subtitle><updated>",
    );
    doc.append(escape(built).as_str());
    doc.append(
        "</updated><generator uri=\"https://github.com/odilf/odilf.com\">Custom Generator</generator>",
    );
    let ghost head = doc@;
    let ghost all = entry_views(entries@);
    let none: Option<String> = None;
    let mut i: usize = 0;
    proof {
        assert(head + Seq::<char>::empty() =~= head);
    }
    while i < entries.len()
        invariant
            i <= entries.len(),
            all == entry_views(entries@),
            none is None,
            doc@ == head + atom_entries(all, stamps@, i as nat),
        decreases entries.len() - i,
    {
        let stamp = if i < stamps.len() {
            &stamps[i]
        } else {
            &none
        };
        let item = atom_entry(&entries[i], stamp);
        proof {
            assert(all[i as int] == entries@[i as int]@);
            assert(head + atom_entries(all, stamps@, i as nat) + item@ =~= head + atom_entries(
                all,
                stamps@,
                (i + 1) as nat,
            ));
        }
        doc.append(item.as_str());
        i = i + 1;
    }
    doc.append("</feed>");
    doc
}

/// Why a feed could not be written.
#[derive(Debug, Clone, Copy, PartialEq, Eq, Structural)]
pub enum FeedError {
    /// The clock gave no moment that can be written as a date of the feed.
    Clock,
}

impl BlogEntry {
    /// The RSS item of the entry. Its `pubDate` is midnight of the entry's
    /// day in the system's time zone, with the offset of that day; it is
    /// left out where the day cannot be shown.
    pub fn rss(&self) -> (item: String)
        ensures
            exists|stamp: Option<Seq<char>>|
                item@ == rss_item_text(self@, stamp) && (!self.metadata.date.exists_day()
                    ==> stamp is None),
    {
        let stamp = publication_stamp(self.metadata.date);
        let item = rss_item(self, &stamp);
        proof {
            assert(item@ == rss_item_text(self@, stamp_view(stamp)) && (
            !self.metadata.date.exists_day() ==> stamp_view(stamp) is None));
        }
        item
    }

    /// The Atom entry of the entry. Its `updated` is midnight of the
    /// entry's day in the system's time zone, as an instant in the notation
    /// of RFC 3339 with the offset of that day; it is left out where the
    /// day cannot be shown so.
    pub fn atom(&self) -> (item: String)
        ensures
            exists|stamp: Option<Seq<char>>|
                item@ == atom_entry_text(self@, stamp) && (stamp matches Some(text)
                    ==> is_instant_text(text)) && (!self.metadata.date.exists_day()
                    ==> stamp is None),
    {
        let stamp = keep_instant(update_stamp(self.metadata.date));
        let item = atom_entry(self, &stamp);
        proof {
            let shown = stamp_view(stamp);
            assert(item@ == atom_entry_text(self@, shown) && (shown matches Some(text)
                ==> is_instant_text(text)) && (!self.metadata.date.exists_day() ==> shown is None));
        }
        item
    }
}

/// The RSS 2.0 feed of `entries`, in their order, built now. Fails only
/// where the present moment cannot be written as `lastBuildDate`.
pub fn rss(entries: &Vec<BlogEntry>) -> (result: Result<String, FeedError>)
    ensures
        result matches Ok(doc) ==> exists|stamps: Seq<Option<String>>, built: Seq<char>|
            stamps.len() == entries@.len() && only_days_shown(entries@, stamps) && doc@
                == rss_text(entry_views(entries@), stamps, built),
{
    let built = build_stamp();
    let mut stamps: Vec<Option<String>> = Vec::new();
    let mut i: usize = 0;
    while i < entries.len()
        invariant
            i <= entries.len(),
            stamps@.len() == i,
            only_days_shown(entries@, stamps@),
        decreases entries.len() - i,
    {
        stamps.push(publication_stamp(entries[i].metadata.date));
        i = i + 1;
    }
    let ghost moment = stamp_view(built);
    let result = rss_built_at(entries, &stamps, built);
    proof {
        if result is Ok {
            assert(stamps@.len() == entries@.len() && only_days_shown(entries@, stamps@)
                && result->Ok_0@ == rss_text(entry_views(entries@), stamps@, moment->0));
        }
    }
    result
}

/// Whether no entry has a date text whose day the calendar does not have.
pub open spec fn only_days_shown(entries: Seq<BlogEntry>, stamps: Seq<Option<String>>) -> bool {
    forall|i: int|
        0 <= i < stamps.len() && i < entries.len() && !(#[trigger] entries[i]).metadata.date.exists_day()
            ==> stamps[i] is None
}

/// Whether every date text of the list is an instant in the notation of
/// RFC 3339.
pub open spec fn all_instants(stamps: Seq<Option<String>>) -> bool {
    forall|i: int|
        0 <= i < stamps.len() ==> ((#[trigger] stamps[i]) matches Some(text) ==> is_instant_text(
            text@,
        ))
}

/// The Atom 1.0 feed of `entries`, in their order, built now. Every date in
/// it is an instant in the notation of RFC 3339. Fails only where the
/// present moment cannot be written as one.
pub fn atom(entries: &Vec<BlogEntry>) -> (result: Result<String, FeedError>)
    ensures
        result matches Ok(doc) ==> exists|stamps: Seq<Option<String>>, built: Seq<char>|
            stamps.len() == entries@.len() && only_days_shown(entries@, stamps) && all_instants(
                stamps,
            ) && is_instant_text(built) && doc@ == atom_text(
                entry_views(entries@),
                stamps,
                built,
            ),
{
    let built = current_instant();
    let mut stamps: Vec<Option<String>> = Vec::new();
    let mut i: usize = 0;
    while i < entries.len()
        invariant
            i <= entries.len(),
            stamps@.len() == i,
            all_instants(stamps@),
            only_days_shown(entries@, stamps@),
        decreases entries.len() - i,
    {
        stamps.push(keep_instant(update_stamp(entries[i].metadata.date)));
        i = i + 1;
    }
    let ghost moment = stamp_view(built);
    let result = atom_built_at(entries, &stamps, built);
    proof {
        if result is Ok {
            assert(stamps@.len() == entries@.len() && only_days_shown(entries@, stamps@)
                && all_instants(stamps@) && is_instant_text(moment->0) && result->Ok_0@
                == atom_text(entry_views(entries@), stamps@, moment->0));
        }
    }
    result
}

/// What writing the RSS feed comes to, given the date texts of the entries
/// and the moment at which the feed is built, as the clock gave it: the
/// document, or no feed where the clock gave no moment that can be written
/// as `lastBuildDate`.
pub open spec fn rss_outcome(
    entries: Seq<BlogEntryView>,
    stamps: Seq<Option<String>>,
    built: Option<Seq<char>>,
) -> Result<Seq<char>, FeedError> {
    match built {
        Some(moment) => Ok(rss_text(entries, stamps, moment)),
        None => Err(FeedError::Clock),
    }
}

/// Writes the RSS feed of `entries` from the date texts of the entries and
/// what the clock gave for the moment at which the feed is built. Fails
/// exactly where the clock gave none.
pub fn rss_built_at(
    entries: &Vec<BlogEntry>,
    stamps: &Vec<Option<String>>,
    built: Option<String>,
) -> (result: Result<String, FeedError>)
    ensures
        match result {
            Ok(doc) => rss_outcome(entry_views(entries@), stamps@, stamp_view(built)) == Ok::<
                Seq<char>,
                FeedError,
            >(doc@),
            Err(error) => rss_outcome(entry_views(entries@), stamps@, stamp_view(built)) == Err::<
                Seq<char>,
                FeedError,
            >(error),
        },
{
    match built {
        Some(moment) => Ok(rss_document(entries, stamps, moment.as_str())),
        None => Err(FeedError::Clock),
    }
}

/// What writing the Atom feed comes to, given the date texts of the
/// entries and the moment at which the feed is built, as the clock gave
/// it: the document, or no feed where the clock gave no moment that is an
/// instant in the notation of RFC 3339.
pub open spec fn atom_outcome(
    entries: Seq<BlogEntryView>,
    stamps: Seq<Option<String>>,
    built: Option<Seq<char>>,
) -> Result<Seq<char>, FeedError> {
    match instant_only(built) {
        Some(moment) => Ok(atom_text(entries, stamps, moment)),
        None => Err(FeedError::Clock),
    }
}

/// Writes the Atom feed of `entries` from the date texts of the entries
/// and what the clock gave for the moment at which the feed is built.
/// Fails exactly where the clock gave none, or one that is no instant in
/// the notation of RFC 3339.
pub fn atom_built_at(
    entries: &Vec<BlogEntry>,
    stamps: &Vec<Option<String>>,
    built: Option<String>,
) -> (result: Result<String, FeedError>)
    ensures
        match result {
            Ok(doc) => atom_outcome(entry_views(entries@), stamps@, stamp_view(built)) == Ok::<
                Seq<char>,
                FeedError,
            >(doc@),
            Err(error) => atom_outcome(entry_views(entries@), stamps@, stamp_view(built))
                == Err::<Seq<char>, FeedError>(error),
        },
{
    match keep_instant(built) {
        Some(moment) => Ok(atom_document(entries, stamps, moment.as_str())),
        None => Err(FeedError::Clock),
    }
}

} // verus!
