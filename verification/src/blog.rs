//! Blog entries and their front matter.

use vstd::prelude::*;
use vstd::string::*;

use crate::date::{lemma_before_is_total_order, CalendarDate};
use crate::front_matter::{front_matter_of, metadata_outcome, parse_metadata};
use crate::text::ends_with;
use crate::markdown::{
    first_failure, image_count, image_urls, parse, parsed_nodes, prepared, rendered_document,
    reported_words, rewritten, summary_of, texts, typeset_document, MarkdownData, MarkdownError,
};

verus! {

/// Language a post is written in.
#[derive(Debug, Clone, Copy, PartialEq, Eq, Structural)]
pub enum Language {
    English,
    Spanish,
}

impl Language {
    /// The tag that goes into the `lang` attribute of the rendered post.
    pub open spec fn html_tag(self) -> Seq<char> {
        match self {
            Language::English => "en"@,
            Language::Spanish => "es"@,
        }
    }

    /// Name of the language as HTML's `lang` attribute spells it.
    pub fn html_name(self) -> (name: &'static str)
        ensures
            name@ == self.html_tag(),
    {
        match self {
            Language::English => "en",
            Language::Spanish => "es",
        }
    }
}

impl Default for Language {
    /// Posts are in English unless they say otherwise.
    fn default() -> (language: Language)
        ensures
            language == Language::English,
    {
        Language::English
    }
}

/// Front matter of a post.
#[derive(Debug)]
pub struct BlogMetadata {
    pub title: String,
    pub date: CalendarDate,
    pub draft: Option<bool>,
    pub topics: Vec<String>,
    pub lang: Language,
    pub numbered_headings: Option<bool>,
}

/// The mathematical value of a post's front matter.
pub struct BlogMetadataView {
    pub title: Seq<char>,
    pub date: CalendarDate,
    pub draft: Option<bool>,
    pub topics: Seq<Seq<char>>,
    pub lang: Language,
    pub numbered_headings: Option<bool>,
}

impl View for BlogMetadata {
    type V = BlogMetadataView;

    open spec fn view(&self) -> BlogMetadataView {
        BlogMetadataView {
            title: self.title@,
            date: self.date,
            draft: self.draft,
            topics: self.topics@.map_values(|topic: String| topic@),
            lang: self.lang,
            numbered_headings: self.numbered_headings,
        }
    }
}

impl BlogMetadataView {
    /// A post is a draft when its front matter says so; one that says
    /// nothing is none.
    pub open spec fn is_draft(self) -> bool {
        self.draft == Some(true)
    }
}

impl BlogMetadata {
    /// Tells whether the headings of the post are numbered: they are unless
    /// the front matter says otherwise.
    pub fn numbers_headings(&self) -> (on: bool)
        ensures
            on == (self.numbered_headings != Some(false)),
    {
        match self.numbered_headings {
            Some(on) => on,
            None => true,
        }
    }

    /// Tells whether the post is marked as a draft.
    pub fn is_draft(&self) -> (draft: bool)
        ensures
            draft == self@.is_draft(),
    {
        match self.draft {
            Some(flag) => flag,
            None => false,
        }
    }
}

/// An entry of the blog: one post, transformed.
#[derive(Debug)]
pub struct BlogEntry {
    pub slug: String,
    pub html: String,
    pub summary: String,
    pub word_count: u32,
    pub metadata: BlogMetadata,
}

/// The days of a list of entries.
pub open spec fn days(entries: Seq<BlogEntry>) -> Seq<CalendarDate> {
    entries.map_values(|entry: BlogEntry| entry.metadata.date)
}

/// Whether no day of the list is before a later one: newest first.
pub open spec fn newest_first(dates: Seq<CalendarDate>) -> bool {
    forall|i: int, j: int| 0 <= i < j < dates.len() ==> !dates[i].before(dates[j])
}

/// The entries of a given day, in the order of the list.
pub open spec fn on_day(entries: Seq<BlogEntry>, day: CalendarDate) -> Seq<BlogEntry> {
    entries.filter(|entry: BlogEntry| entry.metadata.date == day)
}

/// A list without an entry of a day has nothing on that day.
proof fn lemma_nothing_on_day(list: Seq<BlogEntry>, day: CalendarDate)
    requires
        forall|i: int| 0 <= i < list.len() ==> (#[trigger] list[i]).metadata.date != day,
    ensures
        on_day(list, day) == Seq::<BlogEntry>::empty(),
    decreases list.len(),
{
    reveal(Seq::filter);
    if list.len() > 0 {
        lemma_nothing_on_day(list.drop_last(), day);
    }
}

/// Putting an entry into a list that is newest first, behind the entries of
/// its day and of later days, keeps the list newest first, adds the entry
/// at the end of its day and leaves every other day as it was.
proof fn lemma_insert_keeps_order(list: Seq<BlogEntry>, p: int, entry: BlogEntry)
    requires
        0 <= p <= list.len(),
        newest_first(days(list)),
        forall|i: int| 0 <= i < p ==> !(#[trigger] list[i]).metadata.date.before(entry.metadata.date),
        forall|i: int|
            p <= i < list.len() ==> (#[trigger] list[i]).metadata.date.before(entry.metadata.date),
    ensures
        newest_first(days(list.insert(p, entry))),
        on_day(list.insert(p, entry), entry.metadata.date) == on_day(
            list,
            entry.metadata.date,
        ).push(entry),
        forall|day: CalendarDate|
            day != entry.metadata.date ==> #[trigger] on_day(list.insert(p, entry), day) == on_day(
                list,
                day,
            ),
{
    let grown = list.insert(p, entry);
    let day = entry.metadata.date;
    assert forall|i: int, j: int| 0 <= i < j < grown.len() implies !days(grown)[i].before(
        days(grown)[j],
    ) by {
        let a = grown[i].metadata.date;
        let b = grown[j].metadata.date;
        if i < p && j == p {
            assert(grown[i] == list[i]);
        } else if i < p && j > p {
            assert(grown[i] == list[i] && grown[j] == list[j - 1]);
            assert(!days(list)[i].before(days(list)[j - 1]));
        } else if i < p {
            assert(grown[i] == list[i] && grown[j] == list[j]);
            assert(!days(list)[i].before(days(list)[j]));
        } else if i == p {
            assert(grown[j] == list[j - 1]);
            lemma_before_is_total_order(b, day, b);
        } else {
            assert(grown[i] == list[i - 1] && grown[j] == list[j - 1]);
            assert(!days(list)[i - 1].before(days(list)[j - 1]));
        }
    }
    assert(grown =~= list.take(p) + seq![entry] + list.skip(p));
    assert(list =~= list.take(p) + list.skip(p));
    assert forall|other: CalendarDate| true implies #[trigger] on_day(grown, other) == if other
        == day {
        on_day(list, other).push(entry)
    } else {
        on_day(list, other)
    } by {
        let pred = |e: BlogEntry| e.metadata.date == other;
        Seq::filter_distributes_over_add(list.take(p) + seq![entry], list.skip(p), pred);
        Seq::filter_distributes_over_add(list.take(p), seq![entry], pred);
        Seq::filter_distributes_over_add(list.take(p), list.skip(p), pred);
        reveal_with_fuel(Seq::filter, 2);
        assert(seq![entry].drop_last() =~= Seq::<BlogEntry>::empty());
        assert(seq![entry].filter(pred) =~= if other == day {
            seq![entry]
        } else {
            Seq::<BlogEntry>::empty()
        });
        if other == day {
            let tail = list.skip(p);
            assert forall|i: int| 0 <= i < tail.len() implies (#[trigger] tail[i]).metadata.date
                != day by {
                assert(tail[i] == list[p + i]);
            }
            lemma_nothing_on_day(tail, day);
            assert(on_day(grown, other) =~= on_day(list, other).push(entry));
        } else {
            assert(on_day(grown, other) =~= on_day(list, other));
        }
    }
}

/// The place of a new entry in a list that is newest first: behind every
/// entry that is not older than it.
fn place_for(list: &Vec<BlogEntry>, day: &CalendarDate) -> (p: usize)
    requires
        newest_first(days(list@)),
    ensures
        p <= list@.len(),
        forall|i: int| 0 <= i < p ==> !(#[trigger] list@[i]).metadata.date.before(*day),
        forall|i: int| p <= i < list@.len() ==> (#[trigger] list@[i]).metadata.date.before(*day),
{
    let mut p: usize = 0;
    while p < list.len() && !list[p].metadata.date.is_before(day)
        invariant
            p <= list@.len(),
            forall|i: int| 0 <= i < p ==> !(#[trigger] list@[i]).metadata.date.before(*day),
        decreases list.len() - p,
    {
        p = p + 1;
    }
    proof {
        assert forall|i: int| p <= i < list@.len() implies (#[trigger] list@[i]).metadata.date.before(
            *day,
        ) by {
            if i > p {
                assert(!days(list@)[p as int].before(days(list@)[i]));
                lemma_before_is_total_order(list@[i].metadata.date, list@[p as int].metadata.date, *day);
            }
        }
    }
    p
}

/// Orders entries for the index and the feeds: newest first, entries of one
/// day in the order in which they came.
pub fn sort_by_date(entries: Vec<BlogEntry>) -> (sorted: Vec<BlogEntry>)
    ensures
        sorted@.len() == entries@.len(),
        sorted@.to_multiset() == entries@.to_multiset(),
        newest_first(days(sorted@)),
        forall|day: CalendarDate| #[trigger] on_day(sorted@, day) == on_day(entries@, day),
{
    let mut sorted: Vec<BlogEntry> = Vec::new();
    let ghost mut done: Seq<BlogEntry> = Seq::empty();
    proof {
        assert forall|day: CalendarDate| #[trigger] on_day(sorted@, day) == on_day(done, day) by {}
    }
    for entry in it: entries
        invariant
            it.seq() == entries@,
            done == entries@.take(it.index()),
            sorted@.len() == it.index(),
            sorted@.to_multiset() == done.to_multiset(),
            newest_first(days(sorted@)),
            forall|day: CalendarDate| #[trigger] on_day(sorted@, day) == on_day(done, day),
    {
        let p = place_for(&sorted, &entry.metadata.date);
        proof {
            lemma_insert_keeps_order(sorted@, p as int, entry);
            let next = entries@.take(it.index() + 1);
            assert(next.drop_last() =~= done);
            assert(next.last() == entry);
            assert(next =~= done.push(entry));
            vstd::seq_lib::to_multiset_insert(sorted@, p as int, entry);
            vstd::seq_lib::to_multiset_build(done, entry);
            assert forall|day: CalendarDate| #[trigger]
                on_day(sorted@.insert(p as int, entry), day) == on_day(next, day) by {
                reveal(Seq::filter);
            }
            done = next;
        }
        sorted.insert(p, entry);
    }
    proof {
        assert(entries@.take(entries@.len() as int) =~= entries@);
    }
    sorted
}

/// Whether a post with this metadata becomes an entry: any post where
/// drafts are included, else one that is no draft.
pub open spec fn admits(metadata: BlogMetadataView, include_drafts: bool) -> bool {
    include_drafts || !metadata.is_draft()
}

/// Whether a file with this front matter gives an entry: it has valid
/// metadata, and it is no draft unless drafts are included.
pub open spec fn is_loaded(content: Seq<char>, include_drafts: bool) -> bool {
    metadata_outcome(front_matter_of(content)) matches Ok(metadata) && admits(
        metadata,
        include_drafts,
    )
}

/// Whether `entry` is the entry of the file with this slug and text: it
/// carries the slug and the file's metadata, the rendered document after
/// the rewrites and the typesetting, the summary and the word count.
pub open spec fn is_entry_of(entry: BlogEntry, slug: Seq<char>, content: Seq<char>) -> bool {
    let nodes = parsed_nodes(content);
    let shifted = rewritten(nodes);
    let ready = prepared(content);
    &&& first_failure(ready, ready.len()) is None
    &&& entry.slug@ == slug
    &&& metadata_outcome(front_matter_of(content)) == Ok::<
        BlogMetadataView,
        crate::front_matter::MetadataError,
    >(entry.metadata@)
    &&& entry.metadata.date.in_range()
    &&& entry.html@ == rendered_document(content, typeset_document(ready))
    &&& entry.summary@ == summary_of(nodes)
    &&& entry.word_count == reported_words(shifted)
}

/// Whether `error` is the failure of transforming the file with this text:
/// it names the first math span that does not typeset.
pub open spec fn is_failure_of(error: MarkdownError, content: Seq<char>) -> bool {
    let ready = prepared(content);
    error matches MarkdownError::Math(source) && first_failure(ready, ready.len()) == Some(
        source@,
    )
}

/// The class attribute of an entry's line in the index: `blog-entry`, one
/// `topic-` class for each topic, and `draft-post` for a draft that is to be
/// told apart.
pub open spec fn entry_classes(topics: Seq<Seq<char>>, k: nat) -> Seq<char>
    decreases k,
{
    if k == 0 || k > topics.len() {
        "blog-entry"@
    } else {
        entry_classes(topics, (k - 1) as nat) + " topic-"@ + topics[k - 1]
    }
}

/// The classes of a draft are those of the entry and `draft-post`.
pub open spec fn marked_classes(metadata: BlogMetadataView, mark_drafts: bool) -> Seq<char> {
    if mark_drafts && metadata.is_draft() {
        entry_classes(metadata.topics, metadata.topics.len()) + " draft-post"@
    } else {
        entry_classes(metadata.topics, metadata.topics.len())
    }
}

/// A draft gives an entry exactly when drafts are included, and where
/// drafts are told apart its line in the index carries `draft-post`, which
/// the line of no other entry does.
pub proof fn lemma_drafts_only_when_included(content: Seq<char>, metadata: BlogMetadataView)
    requires
        metadata_outcome(front_matter_of(content)) == Ok::<
            BlogMetadataView,
            crate::front_matter::MetadataError,
        >(metadata),
    ensures
        is_loaded(content, true),
        is_loaded(content, false) <==> !metadata.is_draft(),
        admits(metadata, true),
        admits(metadata, false) <==> !metadata.is_draft(),
        metadata.is_draft() ==> ends_with(marked_classes(metadata, true), " draft-post"@),
        marked_classes(metadata, false) == entry_classes(metadata.topics, metadata.topics.len()),
        !metadata.is_draft() ==> marked_classes(metadata, true) == entry_classes(
            metadata.topics,
            metadata.topics.len(),
        ),
{
    let plain = entry_classes(metadata.topics, metadata.topics.len());
    let mark = " draft-post"@;
    assert((plain + mark).skip((plain + mark).len() - mark.len()) =~= mark);
}

/// How many of `tags` tags stand in the first of the two rows: half of them,
/// and the odd one.
pub open spec fn first_row(tags: nat) -> nat {
    (tags + 1) / 2
}

impl BlogMetadata {
    /// Tells whether a post with this metadata becomes an entry.
    pub fn is_admitted(&self, include_drafts: bool) -> (admitted: bool)
        ensures
            admitted == admits(self@, include_drafts),
    {
        include_drafts || !self.is_draft()
    }
}

impl BlogEntry {
    /// Puts an entry together from its slug, its metadata and its
    /// transformed document.
    pub fn from_parts(slug: &str, metadata: BlogMetadata, data: MarkdownData) -> (entry: BlogEntry)
        ensures
            entry.slug@ == slug@,
            entry.metadata == metadata,
            entry.html == data.html,
            entry.summary == data.summary,
            entry.word_count == data.word_count,
    {
        let MarkdownData { html, summary, word_count } = data;
        BlogEntry { slug: String::from_str(slug), html, summary, word_count, metadata }
    }

    /// Loads the entry of a content file from its slug and its text.
    ///
    /// A file without valid front matter gives no entry, and neither does a
    /// draft unless `include_drafts` is set; both leave `referenced_links`
    /// as it is, and nothing is rendered. Any other file is transformed: the
    /// addresses of its images are added to `referenced_links`, and the
    /// entry comes back unless its math fails to typeset.
    pub fn from_slug_and_content(
        slug: &str,
        content: &str,
        referenced_links: &mut Vec<String>,
        include_drafts: bool,
    ) -> (result: Result<Option<BlogEntry>, MarkdownError>)
        ensures
            !is_loaded(content@, include_drafts) ==> (result matches Ok(None))
                && final(referenced_links)@ == old(referenced_links)@,
            is_loaded(content@, include_drafts) ==> {
                let nodes = parsed_nodes(content@);
                &&& texts(final(referenced_links)@) == texts(old(referenced_links)@) + image_urls(
                    nodes,
                    nodes.len(),
                )
                &&& final(referenced_links)@.len() == old(referenced_links)@.len() + image_count(
                    nodes,
                    nodes.len(),
                )
                &&& match result {
                    Ok(Some(entry)) => is_entry_of(entry, slug@, content@),
                    Ok(None) => false,
                    Err(error) => is_failure_of(error, content@),
                }
            },
    {
        let metadata = match parse_metadata(content) {
            Ok(metadata) => metadata,
            Err(_) => {
                return Ok(None);
            },
        };
        if !metadata.is_admitted(include_drafts) {
            return Ok(None);
        }
        let data = parse(content, referenced_links)?;
        Ok(Some(BlogEntry::from_parts(slug, metadata, data)))
    }

    /// Number of tags under an entry: one for each topic and one for the
    /// length.
    pub fn num_tags(&self) -> (count: usize)
        requires
            self.metadata.topics@.len() < usize::MAX,
        ensures
            count == self.metadata.topics@.len() + 1,
    {
        self.metadata.topics.len() + 1
    }

    /// The tags under an entry: its topics, then the label of its length.
    pub fn tags(&self, length_label: &str) -> (tags: Vec<String>)
        ensures
            texts(tags@) == self@.topics().push(length_label@),
    {
        let mut tags: Vec<String> = Vec::new();
        let mut i: usize = 0;
        while i < self.metadata.topics.len()
            invariant
                i <= self.metadata.topics.len(),
                tags@.len() == i,
                forall|j: int| 0 <= j < i ==> (#[trigger] tags@[j])@ == self.metadata.topics@[j]@,
            decreases self.metadata.topics.len() - i,
        {
            tags.push(self.metadata.topics[i].clone());
            i = i + 1;
        }
        tags.push(String::from_str(length_label));
        proof {
            assert(texts(tags@) =~= self@.topics().push(length_label@));
        }
        tags
    }

    /// How many tags stand in the first of the two rows under an entry.
    pub fn first_row_tags(&self) -> (count: usize)
        requires
            self.metadata.topics@.len() < usize::MAX,
        ensures
            count == first_row(self.metadata.topics@.len() + 1),
    {
        let tags = self.num_tags();
        tags / 2 + tags % 2
    }

    /// The class attribute of the entry's line in the index. With
    /// `mark_drafts` set, a draft carries `draft-post` so that it can be
    /// styled apart.
    pub fn summary_classes(&self, mark_drafts: bool) -> (classes: String)
        ensures
            classes@ == marked_classes(self.metadata@, mark_drafts),
    {
        let mut classes = String::from_str("blog-entry");
        let mut i: usize = 0;
        while i < self.metadata.topics.len()
            invariant
                i <= self.metadata.topics.len(),
                classes@ == entry_classes(self.metadata@.topics, i as nat),
            decreases self.metadata.topics.len() - i,
        {
            classes.append(" topic-");
            classes.append(self.metadata.topics[i].as_str());
            i = i + 1;
        }
        if mark_drafts && self.metadata.is_draft() {
            classes.append(" draft-post");
        }
        classes
    }
}

/// The mathematical value of an entry.
pub struct BlogEntryView {
    pub slug: Seq<char>,
    pub html: Seq<char>,
    pub summary: Seq<char>,
    pub word_count: u32,
    pub metadata: BlogMetadataView,
}

impl BlogEntryView {
    /// The topics of the entry.
    pub open spec fn topics(self) -> Seq<Seq<char>> {
        self.metadata.topics
    }
}

impl View for BlogEntry {
    type V = BlogEntryView;

    open spec fn view(&self) -> BlogEntryView {
        BlogEntryView {
            slug: self.slug@,
            html: self.html@,
            summary: self.summary@,
            word_count: self.word_count,
            metadata: self.metadata@,
        }
    }
}

} // verus!
