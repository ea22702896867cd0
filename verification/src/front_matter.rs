//! The front-matter parser: the block between `---` lines at the top of a
//! content file, read as a record, and the post metadata drawn from it.

use gray_matter::engine::YAML;
use gray_matter::{Matter, Pod};
use vstd::prelude::*;
use vstd::string::*;

use crate::blog::{BlogMetadata, BlogMetadataView, Language};
use crate::date::{civil_date, iso_text, parse_date, CalendarDate};

verus! {

/// The value of one front-matter key, as far as the site reads it.
#[derive(Debug)]
pub enum Field {
    /// The key was written without a value.
    Null,
    /// A boolean.
    Flag(bool),
    /// A number, in decimal notation.
    Number(String),
    /// A string.
    Text(String),
    /// A list; an item that is a string is held as such, any other as `None`.
    List(Vec<Option<String>>),
    /// Anything else: a nested record.
    Other,
}

/// The mathematical value of a [`Field`].
pub enum FieldView {
    Null,
    Flag(bool),
    Number(Seq<char>),
    Text(Seq<char>),
    List(Seq<Option<Seq<char>>>),
    Other,
}

/// The value of a list item.
pub open spec fn item_view(item: Option<String>) -> Option<Seq<char>> {
    match item {
        Some(text) => Some(text@),
        None => None,
    }
}

impl View for Field {
    type V = FieldView;

    open spec fn view(&self) -> FieldView {
        match self {
            Field::Null => FieldView::Null,
            Field::Flag(flag) => FieldView::Flag(*flag),
            Field::Number(digits) => FieldView::Number(digits@),
            Field::Text(text) => FieldView::Text(text@),
            Field::List(items) => FieldView::List(
                items@.map_values(|item: Option<String>| item_view(item)),
            ),
            Field::Other => FieldView::Other,
        }
    }
}

/// What stands at the top of a content file.
#[derive(Debug)]
pub enum FrontMatter {
    /// No delimited block, or an empty one.
    Absent,
    /// A block that is no record: its text does not parse, or it holds a
    /// single value or a list.
    Unreadable,
    /// A record, as its keys with their values.
    Record(Vec<(String, Field)>),
}

/// The mathematical value of a [`FrontMatter`]: a record is a map from keys
/// to values.
pub enum FrontMatterView {
    Absent,
    Unreadable,
    Record(Map<Seq<char>, FieldView>),
}

/// The values of a list of entries.
pub open spec fn entry_views(entries: Seq<(String, Field)>) -> Seq<(Seq<char>, FieldView)> {
    entries.map_values(|entry: (String, Field)| (entry.0@, entry.1@))
}

/// The value of the first entry with the given key.
pub open spec fn lookup(entries: Seq<(Seq<char>, FieldView)>, key: Seq<char>) -> Option<
    FieldView,
>
    decreases entries.len(),
{
    if entries.len() == 0 {
        None
    } else if entries[0].0 == key {
        Some(entries[0].1)
    } else {
        lookup(entries.drop_first(), key)
    }
}

/// The record that a list of entries stands for.
pub open spec fn record_of(entries: Seq<(Seq<char>, FieldView)>) -> Map<Seq<char>, FieldView> {
    Map::new(
        |key: Seq<char>| lookup(entries, key) is Some,
        |key: Seq<char>| lookup(entries, key)->0,
    )
}

impl View for FrontMatter {
    type V = FrontMatterView;

    open spec fn view(&self) -> FrontMatterView {
        match self {
            FrontMatter::Absent => FrontMatterView::Absent,
            FrontMatter::Unreadable => FrontMatterView::Unreadable,
            FrontMatter::Record(entries) => FrontMatterView::Record(
                record_of(entry_views(entries@)),
            ),
        }
    }
}

/// The front matter of a content file, as the front-matter parser and its
/// YAML engine read it.
pub uninterp spec fn front_matter_of(content: Seq<char>) -> FrontMatterView;

/// A value of the front-matter parser.
#[verifier::external_type_specification]
#[verifier::external_body]
pub struct ExPod(Pod);

/// Takes a value of the front-matter parser, a `gray_matter::Pod`, for what
/// the site reads of it: a variant of [`Field`] for each variant of `Pod`,
/// whole and real numbers written out with `to_string`, a list's items
/// read with `Pod::as_string`. Nothing is promised of the result by
/// itself; [`read_front_matter`] names what the two give together.
#[verifier::external_body]
fn plain_field(pod: Pod) -> (field: Field) {
    match pod {
        Pod::Null => Field::Null,
        Pod::Boolean(flag) => Field::Flag(flag),
        Pod::Integer(number) => Field::Number(number.to_string()),
        Pod::Float(number) => Field::Number(number.to_string()),
        Pod::String(text) => Field::Text(text),
        Pod::Array(items) => Field::List(items.iter().map(|item| item.as_string().ok()).collect()),
        Pod::Hash(_) => Field::Other,
    }
}

/// Reads the front matter of `content` with `gray_matter::Matter::parse`
/// and the YAML engine, and lists the record's entries. A record's keys
/// differ from one another, so the record that the entries stand for does
/// not depend on the order in which they come.
#[verifier::external_body]
pub(crate) fn read_front_matter(content: &str) -> (found: FrontMatter)
    ensures
        found@ == front_matter_of(content@),
{
    match Matter::<YAML>::new().parse::<Pod>(content) {
        Err(_) => FrontMatter::Unreadable,
        Ok(entity) => match entity.data {
            None => FrontMatter::Absent,
            Some(Pod::Hash(table)) => FrontMatter::Record(
                table.into_iter().map(|(key, pod)| (key, plain_field(pod))).collect(),
            ),
            Some(_) => FrontMatter::Unreadable,
        },
    }
}

/// Finds the value of the first entry with the given key.
pub fn find<'a>(entries: &'a Vec<(String, Field)>, key: &str) -> (found: Option<&'a Field>)
    ensures
        match found {
            Some(field) => lookup(entry_views(entries@), key@) == Some(field@),
            None => lookup(entry_views(entries@), key@) is None,
        },
{
    let wanted = String::from_str(key);
    let ghost all = entry_views(entries@);
    let mut i: usize = 0;
    proof {
        assert(all.skip(0) =~= all);
    }
    while i < entries.len()
        invariant
            i <= entries.len(),
            wanted@ == key@,
            all == entry_views(entries@),
            lookup(all, key@) == lookup(all.skip(i as int), key@),
        decreases entries.len() - i,
    {
        proof {
            assert(all.skip(i as int)[0] == all[i as int]);
            assert(all.skip(i as int).drop_first() =~= all.skip(i + 1));
        }
        if entries[i].0 == wanted {
            return Some(&entries[i].1);
        }
        i = i + 1;
    }
    None
}

/// Why a content file has no metadata.
#[derive(Debug, Clone, Copy, PartialEq, Eq, Structural)]
pub enum MetadataError {
    /// The file has no front-matter block.
    NotFound,
    /// The file has a block, but it is no post metadata: it is no record, a
    /// required key is missing, or a value has the wrong type.
    Invalid,
}

/// The title of a record: the string under `title`.
pub open spec fn title_of(record: Map<Seq<char>, FieldView>) -> Option<Seq<char>> {
    if record.contains_key("title"@) {
        match record["title"@] {
            FieldView::Text(title) => Some(title),
            _ => None,
        }
    } else {
        None
    }
}

/// The date of a record: the day that the string under `date` states.
pub open spec fn date_of(record: Map<Seq<char>, FieldView>) -> Option<CalendarDate> {
    if record.contains_key("date"@) {
        match record["date"@] {
            FieldView::Text(day) => civil_date(day),
            _ => None,
        }
    } else {
        None
    }
}

/// An optional boolean of a record: unset where the key is missing or has no
/// value. The outer `None` says that the value is no boolean.
pub open spec fn flag_of(record: Map<Seq<char>, FieldView>, key: Seq<char>) -> Option<
    Option<bool>,
> {
    if record.contains_key(key) {
        match record[key] {
            FieldView::Null => Some(None),
            FieldView::Flag(flag) => Some(Some(flag)),
            _ => None,
        }
    } else {
        Some(None)
    }
}

/// Whether every item of a list is a string.
pub open spec fn all_text(items: Seq<Option<Seq<char>>>) -> bool {
    forall|i: int| 0 <= i < items.len() ==> (#[trigger] items[i]) is Some
}

/// The strings of a list of strings.
pub open spec fn item_texts(items: Seq<Option<Seq<char>>>) -> Seq<Seq<char>> {
    items.map_values(|item: Option<Seq<char>>| item->0)
}

/// The topics of a record: the list of strings under `topics`, empty where
/// the key is missing.
pub open spec fn topics_of(record: Map<Seq<char>, FieldView>) -> Option<Seq<Seq<char>>> {
    if record.contains_key("topics"@) {
        match record["topics"@] {
            FieldView::List(items) => if all_text(items) {
                Some(item_texts(items))
            } else {
                None
            },
            _ => None,
        }
    } else {
        Some(Seq::empty())
    }
}

/// The language that a name stands for.
pub open spec fn language_named(name: Seq<char>) -> Option<Language> {
    if name == "English"@ {
        Some(Language::English)
    } else if name == "Spanish"@ {
        Some(Language::Spanish)
    } else {
        None
    }
}

/// The language of a record: the one named under `lang`, English where the
/// key is missing.
pub open spec fn language_of(record: Map<Seq<char>, FieldView>) -> Option<Language> {
    if record.contains_key("lang"@) {
        match record["lang"@] {
            FieldView::Text(name) => language_named(name),
            _ => None,
        }
    } else {
        Some(Language::English)
    }
}

/// The post metadata that a record holds, given the day that its date
/// states, if it states one: a title and a date are required, and every
/// recognized key has a value of its type.
pub open spec fn metadata_given(
    record: Map<Seq<char>, FieldView>,
    day: Option<CalendarDate>,
) -> Option<BlogMetadataView> {
    if title_of(record) is Some && day is Some && flag_of(record, "draft"@) is Some && topics_of(
        record,
    ) is Some && language_of(record) is Some && flag_of(record, "numbered-headings"@) is Some {
        Some(
            BlogMetadataView {
                title: title_of(record)->0,
                date: day->0,
                draft: flag_of(record, "draft"@)->0,
                topics: topics_of(record)->0,
                lang: language_of(record)->0,
                numbered_headings: flag_of(record, "numbered-headings"@)->0,
            },
        )
    } else {
        None
    }
}

/// The post metadata that a record holds, if it holds one.
pub open spec fn metadata_of(record: Map<Seq<char>, FieldView>) -> Option<BlogMetadataView> {
    metadata_given(record, date_of(record))
}

/// What parsing the metadata of a file comes to, given its front matter.
pub open spec fn metadata_outcome(found: FrontMatterView) -> Result<
    BlogMetadataView,
    MetadataError,
> {
    match found {
        FrontMatterView::Absent => Err(MetadataError::NotFound),
        FrontMatterView::Unreadable => Err(MetadataError::Invalid),
        FrontMatterView::Record(record) => match metadata_of(record) {
            Some(metadata) => Ok(metadata),
            None => Err(MetadataError::Invalid),
        },
    }
}

/// Whether a parse gave what the front matter amounts to.
pub open spec fn agrees(
    result: Result<BlogMetadata, MetadataError>,
    outcome: Result<BlogMetadataView, MetadataError>,
) -> bool {
    match result {
        Ok(metadata) => outcome == Ok::<BlogMetadataView, MetadataError>(metadata@)
            && metadata.date.in_range(),
        Err(error) => outcome == Err::<BlogMetadataView, MetadataError>(error),
    }
}

/// Reads an optional boolean.
fn read_flag(entries: &Vec<(String, Field)>, key: &str) -> (flag: Option<Option<bool>>)
    ensures
        flag == flag_of(record_of(entry_views(entries@)), key@),
{
    match find(entries, key) {
        None => Some(None),
        Some(Field::Null) => Some(None),
        Some(Field::Flag(flag)) => Some(Some(*flag)),
        Some(_) => None,
    }
}

/// Reads the topics.
fn read_topics(entries: &Vec<(String, Field)>) -> (topics: Option<Vec<String>>)
    ensures
        match topics {
            Some(list) => topics_of(record_of(entry_views(entries@))) == Some(
                list@.map_values(|topic: String| topic@),
            ),
            None => topics_of(record_of(entry_views(entries@))) is None,
        },
{
    match find(entries, "topics") {
        None => Some(Vec::new()),
        Some(Field::List(items)) => {
            let ghost source = items@.map_values(|item: Option<String>| item_view(item));
            let mut topics: Vec<String> = Vec::new();
            let mut i: usize = 0;
            while i < items.len()
                invariant
                    i <= items.len(),
                    source == items@.map_values(|item: Option<String>| item_view(item)),
                    lookup(entry_views(entries@), "topics"@) == Some(FieldView::List(source)),
                    topics@.len() == i,
                    forall|j: int| 0 <= j < i ==> (#[trigger] source[j]) == Some(topics@[j]@),
                decreases items.len() - i,
            {
                assert(source[i as int] == item_view(items@[i as int]));
                match &items[i] {
                    Some(topic) => topics.push(topic.clone()),
                    None => {
                        proof {
                            assert(source[i as int] is None);
                            assert(!all_text(source));
                        }
                        return None;
                    },
                }
                i = i + 1;
            }
            proof {
                assert(all_text(source));
                assert(item_texts(source) =~= topics@.map_values(|topic: String| topic@));
            }
            Some(topics)
        },
        Some(_) => None,
    }
}

/// Reads the language.
fn read_language(entries: &Vec<(String, Field)>) -> (language: Option<Language>)
    ensures
        language == language_of(record_of(entry_views(entries@))),
{
    match find(entries, "lang") {
        None => Some(Language::English),
        Some(Field::Text(name)) => {
            if *name == String::from_str("English") {
                Some(Language::English)
            } else if *name == String::from_str("Spanish") {
                Some(Language::Spanish)
            } else {
                None
            }
        },
        Some(_) => None,
    }
}

/// Draws the post metadata from the entries of a front-matter record and
/// the day that its date states, `None` where it states none.
///
/// Succeeds exactly where there is a day and the record has a string under
/// `title` and, where they are set, a boolean under `draft`, a list of
/// strings under `topics`, the name of a language under `lang` and a
/// boolean under `numbered-headings`. Other keys are passed over.
pub fn metadata_with_date(entries: &Vec<(String, Field)>, day: Option<CalendarDate>) -> (result:
    Result<BlogMetadata, MetadataError>)
    ensures
        match result {
            Ok(metadata) => metadata_given(record_of(entry_views(entries@)), day) == Some(
                metadata@,
            ),
            Err(error) => error == MetadataError::Invalid && metadata_given(
                record_of(entry_views(entries@)),
                day,
            ) is None,
        },
{
    let title = match find(entries, "title") {
        Some(Field::Text(title)) => title.clone(),
        _ => {
            return Err(MetadataError::Invalid);
        },
    };
    let Some(date) = day else {
        return Err(MetadataError::Invalid);
    };
    let Some(draft) = read_flag(entries, "draft") else {
        return Err(MetadataError::Invalid);
    };
    let Some(topics) = read_topics(entries) else {
        return Err(MetadataError::Invalid);
    };
    let Some(lang) = read_language(entries) else {
        return Err(MetadataError::Invalid);
    };
    let Some(numbered_headings) = read_flag(entries, "numbered-headings") else {
        return Err(MetadataError::Invalid);
    };
    Ok(BlogMetadata { title, date, draft, topics, lang, numbered_headings })
}

/// Draws the post metadata from the entries of a front-matter record: reads
/// the day under `date` and hands on to [`metadata_with_date`].
pub fn metadata_from_entries(entries: &Vec<(String, Field)>) -> (result: Result<
    BlogMetadata,
    MetadataError,
>)
    ensures
        agrees(
            result,
            metadata_outcome(FrontMatterView::Record(record_of(entry_views(entries@)))),
        ),
{
    let day = match find(entries, "date") {
        Some(Field::Text(day)) => parse_date(day.as_str()),
        _ => None,
    };
    metadata_with_date(entries, day)
}

/// Draws the post metadata from what stands at the top of a file.
pub fn metadata_from_front_matter(found: &FrontMatter) -> (result: Result<
    BlogMetadata,
    MetadataError,
>)
    ensures
        agrees(result, metadata_outcome(found@)),
{
    match found {
        FrontMatter::Absent => Err(MetadataError::NotFound),
        FrontMatter::Unreadable => Err(MetadataError::Invalid),
        FrontMatter::Record(entries) => metadata_from_entries(entries),
    }
}

/// Parses the metadata of a content file from its front matter.
///
/// Fails with [`MetadataError::NotFound`] on a file without a front-matter
/// block, and with [`MetadataError::Invalid`] on a block that is no post
/// metadata.
pub fn parse_metadata(content: &str) -> (result: Result<BlogMetadata, MetadataError>)
    ensures
        agrees(result, metadata_outcome(front_matter_of(content@))),
{
    let found = read_front_matter(content);
    metadata_from_front_matter(&found)
}

/// The name under which front matter states a language.
pub open spec fn language_name(language: Language) -> Seq<char> {
    match language {
        Language::English => "English"@,
        Language::Spanish => "Spanish"@,
    }
}

/// How a record states an optional boolean.
pub open spec fn flag_field(flag: Option<bool>) -> FieldView {
    match flag {
        Some(value) => FieldView::Flag(value),
        None => FieldView::Null,
    }
}

/// The recognized fields of a post metadata, written back as the entries of
/// a record.
pub open spec fn entries_of(metadata: BlogMetadataView) -> Seq<(Seq<char>, FieldView)> {
    seq![
        ("title"@, FieldView::Text(metadata.title)),
        ("date"@, FieldView::Text(iso_text(metadata.date))),
        ("draft"@, flag_field(metadata.draft)),
        (
            "topics"@,
            FieldView::List(metadata.topics.map_values(|topic: Seq<char>| Some(topic))),
        ),
        ("lang"@, FieldView::Text(language_name(metadata.lang))),
        ("numbered-headings"@, flag_field(metadata.numbered_headings)),
    ]
}

/// Writes an optional boolean.
fn write_flag(flag: Option<bool>) -> (field: Field)
    ensures
        field@ == flag_field(flag),
{
    match flag {
        Some(value) => Field::Flag(value),
        None => Field::Null,
    }
}

impl BlogMetadata {
    /// Writes the recognized fields back as the entries of a record.
    pub fn to_entries(&self) -> (entries: Vec<(String, Field)>)
        requires
            self.date.in_range(),
        ensures
            entry_views(entries@) == entries_of(self@),
    {
        let mut items: Vec<Option<String>> = Vec::new();
        let mut i: usize = 0;
        while i < self.topics.len()
            invariant
                i <= self.topics.len(),
                items@.len() == i,
                forall|j: int| 0 <= j < i ==> (#[trigger] items@[j]) == Some(self.topics@[j]),
            decreases self.topics.len() - i,
        {
            items.push(Some(self.topics[i].clone()));
            i = i + 1;
        }
        let lang = match self.lang {
            Language::English => String::from_str("English"),
            Language::Spanish => String::from_str("Spanish"),
        };
        let mut entries: Vec<(String, Field)> = Vec::new();
        entries.push((String::from_str("title"), Field::Text(self.title.clone())));
        entries.push((String::from_str("date"), Field::Text(self.date.to_iso())));
        entries.push((String::from_str("draft"), write_flag(self.draft)));
        entries.push((String::from_str("topics"), Field::List(items)));
        entries.push((String::from_str("lang"), Field::Text(lang)));
        entries.push((String::from_str("numbered-headings"), write_flag(self.numbered_headings)));
        proof {
            assert(items@.map_values(|item: Option<String>| item_view(item))
                =~= self@.topics.map_values(|topic: Seq<char>| Some(topic)));
            assert(entry_views(entries@) =~= entries_of(self@));
        }
        entries
    }
}

/// The first entry with a key is the one that a lookup finds.
pub proof fn lemma_lookup_finds_first(
    entries: Seq<(Seq<char>, FieldView)>,
    key: Seq<char>,
    i: int,
)
    requires
        0 <= i < entries.len(),
        entries[i].0 == key,
        forall|j: int| 0 <= j < i ==> (#[trigger] entries[j]).0 != key,
    ensures
        lookup(entries, key) == Some(entries[i].1),
    decreases i,
{
    if i > 0 {
        let rest = entries.drop_first();
        assert(entries[0].0 != key);
        assert(forall|j: int| 0 <= j < i - 1 ==> (#[trigger] rest[j]) == entries[j + 1]);
        lemma_lookup_finds_first(rest, key, i - 1);
    }
}

/// Parsing the written fields of a post metadata gives the metadata back:
/// title, topics and the rest come out as they went in, and so does the
/// date, which is written in ISO notation, wherever the date parser reads
/// that notation as the day it stands for.
pub proof fn lemma_written_fields_parse_back(metadata: BlogMetadataView)
    ensures
        record_of(entries_of(metadata)).contains_key("date"@),
        record_of(entries_of(metadata))["date"@] == FieldView::Text(iso_text(metadata.date)),
        metadata_given(record_of(entries_of(metadata)), Some(metadata.date)) == Some(metadata),
        civil_date(iso_text(metadata.date)) == Some(metadata.date) ==> metadata_of(
            record_of(entries_of(metadata)),
        ) == Some(metadata),
{
    reveal_strlit("title");
    reveal_strlit("date");
    reveal_strlit("draft");
    reveal_strlit("topics");
    reveal_strlit("lang");
    reveal_strlit("numbered-headings");
    reveal_strlit("English");
    reveal_strlit("Spanish");
    let entries = entries_of(metadata);
    let record = record_of(entries);
    assert("title"@[0] == 't' && "date"@[0] == 'd' && "draft"@[0] == 'd' && "topics"@[0] == 't'
        && "lang"@[0] == 'l' && "numbered-headings"@[0] == 'n');
    assert("title"@[1] == 'i' && "topics"@[1] == 'o' && "date"@[1] == 'a' && "draft"@[1] == 'r');
    assert("English"@[0] == 'E' && "Spanish"@[0] == 'S');
    lemma_lookup_finds_first(entries, "title"@, 0);
    lemma_lookup_finds_first(entries, "date"@, 1);
    lemma_lookup_finds_first(entries, "draft"@, 2);
    lemma_lookup_finds_first(entries, "topics"@, 3);
    lemma_lookup_finds_first(entries, "lang"@, 4);
    lemma_lookup_finds_first(entries, "numbered-headings"@, 5);
    assert(lookup(entries, "title"@) == Some(FieldView::Text(metadata.title)));
    assert(lookup(entries, "date"@) == Some(FieldView::Text(iso_text(metadata.date))));
    assert(lookup(entries, "draft"@) == Some(flag_field(metadata.draft)));
    assert(lookup(entries, "topics"@) == Some(
        FieldView::List(metadata.topics.map_values(|topic: Seq<char>| Some(topic))),
    ));
    assert(lookup(entries, "lang"@) == Some(FieldView::Text(language_name(metadata.lang))));
    assert(lookup(entries, "numbered-headings"@) == Some(
        flag_field(metadata.numbered_headings),
    ));
    let items = metadata.topics.map_values(|topic: Seq<char>| Some(topic));
    assert(all_text(items));
    assert(item_texts(items) =~= metadata.topics);
    assert(language_named(language_name(metadata.lang)) == Some(metadata.lang));
}

} // verus!
