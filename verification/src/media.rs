//! The media log: reviews of books, movies, videogames and music.

use vstd::prelude::*;
use vstd::string::*;

use crate::date::{civil_date, day_label, label_text, parse_date, CalendarDate};
use crate::front_matter::{
    entry_views, find, front_matter_of, lookup, read_front_matter, record_of, title_of, Field,
    FieldView, FrontMatter, FrontMatterView,
};
use crate::markdown::{plain_html, render_plain, site_profile};
use crate::text::{contains_text, occurs_in};

verus! {

/// What kind of work a review is about.
#[derive(Debug, Clone, Copy, PartialEq, Eq, Structural)]
pub enum MediaType {
    Book,
    Movie,
    Videogame,
    Music,
}

impl MediaType {
    /// The name of the kind, as front matter and pages write it.
    pub open spec fn label(self) -> Seq<char> {
        match self {
            MediaType::Book => "book"@,
            MediaType::Movie => "movie"@,
            MediaType::Videogame => "videogame"@,
            MediaType::Music => "music"@,
        }
    }

    /// The name of the kind.
    pub fn name(self) -> (name: &'static str)
        ensures
            name@ == self.label(),
    {
        match self {
            MediaType::Book => "book",
            MediaType::Movie => "movie",
            MediaType::Videogame => "videogame",
            MediaType::Music => "music",
        }
    }
}

/// The kind that a name stands for.
pub open spec fn media_type_named(name: Seq<char>) -> Option<MediaType> {
    if name == "book"@ {
        Some(MediaType::Book)
    } else if name == "movie"@ {
        Some(MediaType::Movie)
    } else if name == "videogame"@ {
        Some(MediaType::Videogame)
    } else if name == "music"@ {
        Some(MediaType::Music)
    } else {
        None
    }
}

/// Reads the name of a kind.
pub fn read_media_type(name: &String) -> (kind: Option<MediaType>)
    ensures
        kind == media_type_named(name@),
{
    if *name == String::from_str("book") {
        Some(MediaType::Book)
    } else if *name == String::from_str("movie") {
        Some(MediaType::Movie)
    } else if *name == String::from_str("videogame") {
        Some(MediaType::Videogame)
    } else if *name == String::from_str("music") {
        Some(MediaType::Music)
    } else {
        None
    }
}

/// When a work was read, watched, played or heard: on one day, or from one
/// day to another, both included.
#[derive(Debug, Clone, Copy, PartialEq, Eq, Structural)]
pub enum Date {
    Single(CalendarDate),
    Range(CalendarDate, CalendarDate),
}

impl Date {
    /// The first day.
    pub open spec fn start(self) -> CalendarDate {
        match self {
            Date::Single(day) => day,
            Date::Range(first, _) => first,
        }
    }

    /// The last day.
    pub open spec fn end(self) -> CalendarDate {
        match self {
            Date::Single(day) => day,
            Date::Range(_, last) => last,
        }
    }

    /// Whether `self` comes before `other`: by the first day; of two that
    /// start on one day the single day comes before the range, and of two
    /// ranges the one that ends first.
    pub open spec fn earlier_than(self, other: Date) -> bool {
        ||| self.start().before(other.start())
        ||| self.start() == other.start() && self is Single && other is Range
        ||| self.start() == other.start() && self is Range && other is Range && self.end().before(
            other.end(),
        )
    }

    /// The first day.
    pub fn first_day(&self) -> (day: CalendarDate)
        ensures
            day == self.start(),
    {
        match self {
            Date::Single(day) => *day,
            Date::Range(first, _) => *first,
        }
    }

    /// Tells whether `self` comes before `other`.
    pub fn is_earlier_than(&self, other: &Date) -> (earlier: bool)
        ensures
            earlier == self.earlier_than(*other),
    {
        let start = self.first_day();
        let other_start = other.first_day();
        if start.is_before(&other_start) {
            true
        } else if other_start.is_before(&start) {
            false
        } else {
            match (self, other) {
                (Date::Single(_), Date::Range(_, _)) => true,
                (Date::Range(_, last), Date::Range(_, other_last)) => last.is_before(other_last),
                _ => false,
            }
        }
    }

    /// How the date is shown: the day, or the first and the last day with a
    /// hyphen between.
    pub open spec fn shown(self) -> Seq<char> {
        match self {
            Date::Single(day) => label_text(day),
            Date::Range(first, last) => label_text(first) + " - "@ + label_text(last),
        }
    }

    /// Whether the calendar has the days of the date.
    pub open spec fn exists_date(self) -> bool {
        self.start().exists_day() && self.end().exists_day()
    }

    /// Writes the date as it is shown. `None` where the calendar lacks one
    /// of its days.
    pub fn label(&self) -> (label: Option<String>)
        ensures
            label is Some <==> self.exists_date(),
            label matches Some(text) ==> text@ == self.shown(),
    {
        match self {
            Date::Single(day) => day_label(*day),
            Date::Range(first, last) => {
                let start = day_label(*first);
                let end = day_label(*last);
                match (start, end) {
                    (Some(mut text), Some(end_text)) => {
                        text.append(" - ");
                        text.append(end_text.as_str());
                        Some(text)
                    },
                    _ => None,
                }
            },
        }
    }
}

/// A score in half stars.
#[derive(Debug, Clone, Copy, PartialEq, Eq, Structural)]
pub struct Rating {
    pub half_stars: u8,
}

/// `count` full stars.
pub open spec fn full_stars(count: nat) -> Seq<char>
    decreases count,
{
    if count == 0 {
        Seq::empty()
    } else {
        full_stars((count - 1) as nat).push('\u{2605}')
    }
}

impl Rating {
    /// The score in glyphs: a full star for every two half stars, and a
    /// half star for an odd one.
    pub open spec fn glyphs(self) -> Seq<char> {
        if self.half_stars % 2 == 1 {
            full_stars((self.half_stars / 2) as nat).push('\u{2BE8}')
        } else {
            full_stars((self.half_stars / 2) as nat)
        }
    }

    /// Writes the score in glyphs.
    pub fn stars(&self) -> (text: String)
        ensures
            text@ == self.glyphs(),
    {
        let mut text = String::new();
        let mut i: u8 = 0;
        while i < self.half_stars / 2
            invariant
                i <= self.half_stars / 2,
                text@ == full_stars(i as nat),
            decreases self.half_stars / 2 - i,
        {
            text.push('\u{2605}');
            i = i + 1;
        }
        if self.half_stars % 2 == 1 {
            text.push('\u{2BE8}');
        }
        text
    }
}

/// Whether a character is a decimal digit.
pub open spec fn is_digit(c: char) -> bool {
    0x30 <= c as u32 <= 0x39
}

/// Number of decimal points in a text.
pub open spec fn points(s: Seq<char>) -> nat
    decreases s.len(),
{
    if s.len() == 0 {
        0
    } else {
        points(s.drop_last()) + if s.last() == '.' {
            1nat
        } else {
            0nat
        }
    }
}

/// Whether a text is a number in plain decimal notation: digits, with at
/// most one decimal point, which has digits on both sides.
pub open spec fn is_decimal(s: Seq<char>) -> bool {
    &&& s.len() > 0
    &&& forall|i: int| 0 <= i < s.len() ==> is_digit(#[trigger] s[i]) || s[i] == '.'
    &&& points(s) <= 1
    &&& s[0] != '.'
    &&& s.last() != '.'
}

/// The value of the digits before the decimal point.
pub open spec fn whole_value(s: Seq<char>) -> nat
    decreases s.len(),
{
    if s.len() == 0 {
        0
    } else if points(s) > 0 {
        whole_value(s.drop_last())
    } else {
        10 * whole_value(s.drop_last()) + (s.last() as u32 - 0x30) as nat
    }
}

/// Whether a digit after the decimal point is not 0.
pub open spec fn has_fraction(s: Seq<char>) -> bool
    decreases s.len(),
{
    if s.len() == 0 {
        false
    } else {
        has_fraction(s.drop_last()) || (points(s.drop_last()) > 0 && s.last() != '0' && s.last()
            != '.')
    }
}

/// The score that a number in decimal notation stands for: two half stars
/// for each unit, and one more for any fraction. A text that is no such
/// number, or a number above 127, stands for none.
pub open spec fn rating_of(s: Seq<char>) -> Option<Rating> {
    if is_decimal(s) && whole_value(s) <= 127 {
        Some(
            Rating {
                half_stars: (2 * whole_value(s) + if has_fraction(s) {
                    1nat
                } else {
                    0nat
                }) as u8,
            },
        )
    } else {
        None
    }
}

/// Reads a score from a number in decimal notation.
pub fn read_rating(text: &str) -> (rating: Option<Rating>)
    ensures
        rating == rating_of(text@),
{
    broadcast use vstd::string::group_string_axioms;

    let mut whole: u8 = 0;
    let mut seen_points: u8 = 0;
    let mut fraction = false;
    let mut numeric = true;
    let mut starts_with_point = false;
    let mut ends_with_point = false;
    let mut empty = true;
    for c in it: text.chars()
        invariant
            it.seq() == text@,
            empty == (it.index() == 0),
            numeric == (forall|i: int|
                0 <= i < it.index() ==> is_digit(#[trigger] text@[i]) || text@[i] == '.'),
            seen_points == if points(text@.take(it.index())) > 1 {
                2
            } else {
                points(text@.take(it.index())) as int
            },
            numeric ==> whole == if whole_value(text@.take(it.index())) > 127 {
                128
            } else {
                whole_value(text@.take(it.index())) as int
            },
            numeric ==> fraction == has_fraction(text@.take(it.index())),
            !empty ==> starts_with_point == (text@[0] == '.'),
            !empty ==> ends_with_point == (text@[it.index() - 1] == '.'),
    {
        proof {
            let i = it.index();
            assert(text@.take(i + 1).drop_last() == text@.take(i));
            assert(text@.take(i + 1).last() == c);
        }
        if empty {
            starts_with_point = c == '.';
        }
        empty = false;
        ends_with_point = c == '.';
        let code: u32 = c as u32;
        if c == '.' {
            if seen_points < 2 {
                seen_points = seen_points + 1;
            }
        } else if 0x30 <= code && code <= 0x39 {
            if seen_points == 0 {
                whole = if whole > 12 {
                    128
                } else {
                    let grown = whole * 10 + (code - 0x30) as u8;
                    if grown > 127 {
                        128
                    } else {
                        grown
                    }
                };
            } else if c != '0' {
                fraction = true;
            }
        } else {
            numeric = false;
        }
    }
    proof {
        assert(text@.take(text@.len() as int) == text@);
    }
    if empty || !numeric || seen_points > 1 || starts_with_point || ends_with_point || whole > 127 {
        None
    } else {
        Some(Rating { half_stars: 2 * whole + if fraction { 1 } else { 0 } })
    }
}

/// A page that a review points to, with what the site reads of its address.
#[derive(Debug)]
pub struct Source {
    /// The address, as the parser writes it.
    pub url: String,
    /// The host of the address, if it has one.
    pub host: Option<String>,
    /// The last segment of the address's path, if it has a path of
    /// segments.
    pub page: Option<String>,
}

/// The mathematical value of a [`Source`].
pub struct SourceView {
    pub url: Seq<char>,
    pub host: Option<Seq<char>>,
    pub page: Option<Seq<char>>,
}

/// The value of an optional text.
pub open spec fn text_view(text: Option<String>) -> Option<Seq<char>> {
    match text {
        Some(s) => Some(s@),
        None => None,
    }
}

impl View for Source {
    type V = SourceView;

    open spec fn view(&self) -> SourceView {
        SourceView { url: self.url@, host: text_view(self.host), page: text_view(self.page) }
    }
}

/// What the address parser makes of a text; `None` where it is no address.
pub uninterp spec fn source_of(text: Seq<char>) -> Option<SourceView>;

/// Parses an address with `url::Url::parse` and takes from it the address
/// as written by the parser, `host_str` and the last of `path_segments`.
#[verifier::external_body]
fn parse_source(text: &str) -> (source: Option<Source>)
    ensures
        source matches Some(parsed) ==> source_of(text@) == Some(parsed@),
        source is None ==> source_of(text@) is None,
{
    let url = url::Url::parse(text).ok()?;
    let host = url.host_str().map(str::to_string);
    let page = url.path_segments().and_then(|mut segments| segments.next_back());
    Some(Source { url: url.to_string(), host, page: page.map(str::to_string) })
}

/// Whether a source is a page of Wikipedia: its host holds `wikipedia.org`.
pub open spec fn is_wikipedia(source: SourceView) -> bool {
    source.host matches Some(host) && occurs_in(host, "wikipedia.org"@)
}

/// The values of a list of sources.
pub open spec fn source_views(sources: Seq<Source>) -> Seq<SourceView> {
    sources.map_values(|source: Source| source@)
}

/// Finds the first source that is a page of Wikipedia, where a cover image
/// can be looked up.
pub fn first_wikipedia(sources: &Vec<Source>) -> (found: Option<usize>)
    ensures
        match found {
            Some(i) => i < sources@.len() && is_wikipedia(sources@[i as int]@) && forall|j: int|
                0 <= j < i ==> !is_wikipedia(#[trigger] sources@[j]@),
            None => forall|j: int| 0 <= j < sources@.len() ==> !is_wikipedia(#[trigger] sources@[j]@),
        },
{
    let mut i: usize = 0;
    while i < sources.len()
        invariant
            i <= sources.len(),
            forall|j: int| 0 <= j < i ==> !is_wikipedia(#[trigger] sources@[j]@),
        decreases sources.len() - i,
    {
        let wikipedia = match &sources[i].host {
            Some(host) => contains_text(host.as_str(), "wikipedia.org"),
            None => false,
        };
        if wikipedia {
            return Some(i);
        }
        i = i + 1;
    }
    None
}

/// How the cover image of a review is come by.
#[derive(Debug, PartialEq, Eq)]
pub enum CoverPlan {
    /// The address was kept by an earlier run.
    Kept(String),
    /// The address is to be looked up on the page of Wikipedia that is the
    /// source at this place, and kept.
    LookUp(usize),
    /// No cover image is to be had.
    Missing,
}

/// Decides how the cover image of a review is come by when its front
/// matter names none: the address that an earlier run kept is taken as it
/// is; failing that, it is looked up on the first source that is a page
/// of Wikipedia; and without such a source there is none.
pub fn plan_cover(kept: Option<String>, sources: &Vec<Source>) -> (plan: CoverPlan)
    ensures
        match kept {
            Some(url) => plan == CoverPlan::Kept(url),
            None => match plan {
                CoverPlan::Kept(_) => false,
                CoverPlan::LookUp(i) => i < sources@.len() && is_wikipedia(sources@[i as int]@)
                    && forall|j: int| 0 <= j < i ==> !is_wikipedia(#[trigger] sources@[j]@),
                CoverPlan::Missing => forall|j: int|
                    0 <= j < sources@.len() ==> !is_wikipedia(#[trigger] sources@[j]@),
            },
        },
{
    match kept {
        Some(url) => CoverPlan::Kept(url),
        None => match first_wikipedia(sources) {
            Some(i) => CoverPlan::LookUp(i),
            None => CoverPlan::Missing,
        },
    }
}

/// The front matter of a review.
#[derive(Debug)]
pub struct MediaDraft {
    pub title: String,
    pub typ: MediaType,
    pub rating: Rating,
    pub date: Date,
    pub urls: Vec<Source>,
    pub image_url: Option<String>,
}

/// The mathematical value of a [`MediaDraft`].
pub struct MediaDraftView {
    pub title: Seq<char>,
    pub typ: MediaType,
    pub rating: Rating,
    pub date: Date,
    pub urls: Seq<SourceView>,
    pub image_url: Option<Seq<char>>,
}

impl View for MediaDraft {
    type V = MediaDraftView;

    open spec fn view(&self) -> MediaDraftView {
        MediaDraftView {
            title: self.title@,
            typ: self.typ,
            rating: self.rating,
            date: self.date,
            urls: source_views(self.urls@),
            image_url: text_view(self.image_url),
        }
    }
}

/// Why a content file gives no review.
#[derive(Debug, Clone, Copy, PartialEq, Eq, Structural)]
pub enum MediaError {
    /// The file has no front-matter block.
    NotFound,
    /// The block is no front matter of a review.
    Invalid,
    /// The front matter holds a review; the review is the file's body.
    ReviewPresent,
    /// The front matter names no cover image, and none was found.
    NoImage,
}

/// The kind of a record: the one named under `type`.
pub open spec fn kind_of(record: Map<Seq<char>, FieldView>) -> Option<MediaType> {
    if record.contains_key("type"@) {
        match record["type"@] {
            FieldView::Text(name) => media_type_named(name),
            _ => None,
        }
    } else {
        None
    }
}

/// The score of a record: the number under `rating`.
pub open spec fn score_of(record: Map<Seq<char>, FieldView>) -> Option<Rating> {
    if record.contains_key("rating"@) {
        match record["rating"@] {
            FieldView::Number(digits) => rating_of(digits),
            _ => None,
        }
    } else {
        None
    }
}

/// The day that a list item states.
pub open spec fn item_day(item: Option<Seq<char>>) -> Option<CalendarDate> {
    match item {
        Some(text) => civil_date(text),
        None => None,
    }
}

/// The date of a record: the day under `date`, or the two days of a list
/// under `date`.
pub open spec fn when_of(record: Map<Seq<char>, FieldView>) -> Option<Date> {
    if record.contains_key("date"@) {
        match record["date"@] {
            FieldView::Text(day) => match civil_date(day) {
                Some(date) => Some(Date::Single(date)),
                None => None,
            },
            FieldView::List(items) => if items.len() == 2 && item_day(items[0]) is Some
                && item_day(items[1]) is Some {
                Some(Date::Range(item_day(items[0])->0, item_day(items[1])->0))
            } else {
                None
            },
            _ => None,
        }
    } else {
        None
    }
}

/// The source that a list item states.
pub open spec fn item_source(item: Option<Seq<char>>) -> Option<SourceView> {
    match item {
        Some(text) => source_of(text),
        None => None,
    }
}

/// The sources of a record: the list of addresses under `urls`.
pub open spec fn sources_of(record: Map<Seq<char>, FieldView>) -> Option<Seq<SourceView>> {
    if record.contains_key("urls"@) {
        match record["urls"@] {
            FieldView::List(items) => if forall|i: int|
                0 <= i < items.len() ==> item_source(#[trigger] items[i]) is Some {
                Some(items.map_values(|item: Option<Seq<char>>| item_source(item)->0))
            } else {
                None
            },
            _ => None,
        }
    } else {
        None
    }
}

/// An optional string of a record: unset where the key is missing or has no
/// value. The outer `None` says that the value is no string.
pub open spec fn optional_text_of(record: Map<Seq<char>, FieldView>, key: Seq<char>) -> Option<
    Option<Seq<char>>,
> {
    if record.contains_key(key) {
        match record[key] {
            FieldView::Null => Some(None),
            FieldView::Text(text) => Some(Some(text)),
            _ => None,
        }
    } else {
        Some(None)
    }
}

/// The front matter of a review that a record holds, given the date and
/// the sources that it states, if it states them: a title, a kind, a score,
/// a date and sources are required, a cover image may be named, and a
/// review, if there is one, is a string.
pub open spec fn draft_given(
    record: Map<Seq<char>, FieldView>,
    when: Option<Date>,
    sources: Option<Seq<SourceView>>,
) -> Option<MediaDraftView> {
    if title_of(record) is Some && kind_of(record) is Some && score_of(record) is Some && when
        is Some && sources is Some && optional_text_of(record, "review"@) is Some
        && optional_text_of(record, "image-url"@) is Some {
        Some(
            MediaDraftView {
                title: title_of(record)->0,
                typ: kind_of(record)->0,
                rating: score_of(record)->0,
                date: when->0,
                urls: sources->0,
                image_url: optional_text_of(record, "image-url"@)->0,
            },
        )
    } else {
        None
    }
}

/// What drawing the front matter of a review from a record comes to, given
/// the date and the sources that it states: a record that holds a review
/// is refused, though it be valid otherwise.
pub open spec fn draft_result(
    record: Map<Seq<char>, FieldView>,
    when: Option<Date>,
    sources: Option<Seq<SourceView>>,
) -> Result<MediaDraftView, MediaError> {
    match draft_given(record, when, sources) {
        None => Err(MediaError::Invalid),
        Some(draft) => if optional_text_of(record, "review"@) == Some(None::<Seq<char>>) {
            Ok(draft)
        } else {
            Err(MediaError::ReviewPresent)
        },
    }
}

/// The front matter of a review that a record holds, if it holds one.
pub open spec fn draft_of(record: Map<Seq<char>, FieldView>) -> Option<MediaDraftView> {
    draft_given(record, when_of(record), sources_of(record))
}

/// What parsing the front matter of a review comes to.
pub open spec fn draft_outcome(found: FrontMatterView) -> Result<MediaDraftView, MediaError> {
    match found {
        FrontMatterView::Absent => Err(MediaError::NotFound),
        FrontMatterView::Unreadable => Err(MediaError::Invalid),
        FrontMatterView::Record(record) => draft_result(
            record,
            when_of(record),
            sources_of(record),
        ),
    }
}

/// Whether a parse gave what the front matter amounts to.
pub open spec fn draft_agrees(
    result: Result<MediaDraft, MediaError>,
    outcome: Result<MediaDraftView, MediaError>,
) -> bool {
    match result {
        Ok(draft) => outcome == Ok::<MediaDraftView, MediaError>(draft@),
        Err(error) => outcome == Err::<MediaDraftView, MediaError>(error),
    }
}

/// Reads an optional string.
fn read_optional_text(entries: &Vec<(String, Field)>, key: &str) -> (text: Option<Option<String>>)
    ensures
        match text {
            Some(value) => optional_text_of(record_of(entry_views(entries@)), key@) == Some(
                text_view(value),
            ),
            None => optional_text_of(record_of(entry_views(entries@)), key@) is None,
        },
{
    match find(entries, key) {
        None => Some(None),
        Some(Field::Null) => Some(None),
        Some(Field::Text(text)) => Some(Some(text.clone())),
        Some(_) => None,
    }
}

/// Reads the day of a list item.
fn read_item_day(item: &Option<String>) -> (day: Option<CalendarDate>)
    ensures
        day == item_day(crate::front_matter::item_view(*item)),
{
    match item {
        Some(text) => parse_date(text.as_str()),
        None => None,
    }
}

/// Reads the date.
fn read_when(entries: &Vec<(String, Field)>) -> (date: Option<Date>)
    ensures
        date == when_of(record_of(entry_views(entries@))),
{
    match find(entries, "date") {
        Some(Field::Text(day)) => match parse_date(day.as_str()) {
            Some(date) => Some(Date::Single(date)),
            None => None,
        },
        Some(Field::List(items)) => {
            if items.len() != 2 {
                return None;
            }
            let first = read_item_day(&items[0]);
            let last = read_item_day(&items[1]);
            match (first, last) {
                (Some(first), Some(last)) => Some(Date::Range(first, last)),
                _ => None,
            }
        },
        _ => None,
    }
}

/// Reads the sources.
fn read_sources(entries: &Vec<(String, Field)>) -> (sources: Option<Vec<Source>>)
    ensures
        match sources {
            Some(list) => sources_of(record_of(entry_views(entries@))) == Some(
                source_views(list@),
            ),
            None => sources_of(record_of(entry_views(entries@))) is None,
        },
{
    match find(entries, "urls") {
        Some(Field::List(items)) => {
            let ghost source = items@.map_values(
                |item: Option<String>| crate::front_matter::item_view(item),
            );
            let mut sources: Vec<Source> = Vec::new();
            let mut i: usize = 0;
            while i < items.len()
                invariant
                    i <= items.len(),
                    source == items@.map_values(
                        |item: Option<String>| crate::front_matter::item_view(item),
                    ),
                    lookup(entry_views(entries@), "urls"@) == Some(FieldView::List(source)),
                    sources@.len() == i,
                    forall|j: int|
                        0 <= j < i ==> item_source(#[trigger] source[j]) == Some(sources@[j]@),
                decreases items.len() - i,
            {
                assert(source[i as int] == crate::front_matter::item_view(items@[i as int]));
                let parsed = match &items[i] {
                    Some(text) => parse_source(text.as_str()),
                    None => None,
                };
                match parsed {
                    Some(found) => sources.push(found),
                    None => {
                        proof {
                            assert(item_source(source[i as int]) is None);
                        }
                        return None;
                    },
                }
                i = i + 1;
            }
            proof {
                assert(source.map_values(|item: Option<Seq<char>>| item_source(item)->0)
                    =~= source_views(sources@));
            }
            Some(sources)
        },
        _ => None,
    }
}

/// The values of an optional list of sources.
pub open spec fn sources_view(sources: Option<Vec<Source>>) -> Option<Seq<SourceView>> {
    match sources {
        Some(list) => Some(source_views(list@)),
        None => None,
    }
}

/// Draws the front matter of a review from the entries of a record, given
/// the date and the sources that the record states, `None` where it states
/// none.
///
/// Succeeds exactly where there are a date and sources and the record has
/// a string under `title`, the name of a kind under `type`, a number under
/// `rating`, at most a string under `image-url`, and nothing under
/// `review`.
pub fn draft_with(entries: &Vec<(String, Field)>, when: Option<Date>, urls: Option<Vec<Source>>) -> (result:
    Result<MediaDraft, MediaError>)
    ensures
        draft_agrees(
            result,
            draft_result(record_of(entry_views(entries@)), when, sources_view(urls)),
        ),
{
    let title = match find(entries, "title") {
        Some(Field::Text(title)) => title.clone(),
        _ => {
            return Err(MediaError::Invalid);
        },
    };
    let typ = match find(entries, "type") {
        Some(Field::Text(name)) => match read_media_type(name) {
            Some(kind) => kind,
            None => {
                return Err(MediaError::Invalid);
            },
        },
        _ => {
            return Err(MediaError::Invalid);
        },
    };
    let rating = match find(entries, "rating") {
        Some(Field::Number(digits)) => match read_rating(digits.as_str()) {
            Some(rating) => rating,
            None => {
                return Err(MediaError::Invalid);
            },
        },
        _ => {
            return Err(MediaError::Invalid);
        },
    };
    let Some(date) = when else {
        return Err(MediaError::Invalid);
    };
    let Some(urls) = urls else {
        return Err(MediaError::Invalid);
    };
    let Some(review) = read_optional_text(entries, "review") else {
        return Err(MediaError::Invalid);
    };
    let Some(image_url) = read_optional_text(entries, "image-url") else {
        return Err(MediaError::Invalid);
    };
    if review.is_some() {
        return Err(MediaError::ReviewPresent);
    }
    Ok(MediaDraft { title, typ, rating, date, urls, image_url })
}

/// Draws the front matter of a review from the entries of a record: reads
/// the date and the sources and hands on to [`draft_with`].
pub fn draft_from_entries(entries: &Vec<(String, Field)>) -> (result: Result<
    MediaDraft,
    MediaError,
>)
    ensures
        draft_agrees(
            result,
            draft_outcome(FrontMatterView::Record(record_of(entry_views(entries@)))),
        ),
{
    let when = read_when(entries);
    let urls = read_sources(entries);
    draft_with(entries, when, urls)
}

/// Draws the front matter of a review from what stands at the top of a
/// file.
pub fn draft_from_front_matter(found: &FrontMatter) -> (result: Result<MediaDraft, MediaError>)
    ensures
        draft_agrees(result, draft_outcome(found@)),
{
    match found {
        FrontMatter::Absent => Err(MediaError::NotFound),
        FrontMatter::Unreadable => Err(MediaError::Invalid),
        FrontMatter::Record(entries) => draft_from_entries(entries),
    }
}

/// Parses the front matter of a review.
pub fn parse_media_log(content: &str) -> (result: Result<MediaDraft, MediaError>)
    ensures
        draft_agrees(result, draft_outcome(front_matter_of(content@))),
{
    let found = read_front_matter(content);
    draft_from_front_matter(&found)
}

/// A review of the media log.
#[derive(Debug)]
pub struct MediaLog {
    pub title: String,
    pub slug: String,
    pub typ: MediaType,
    pub rating: Rating,
    pub date: Date,
    pub urls: Vec<Source>,
    /// The review, rendered.
    pub review: Option<String>,
    /// The address of the cover image.
    pub image_url: String,
}

/// The cover image of a review: the one that its front matter names, else
/// the one that was found for it.
pub open spec fn cover_of(named: Option<Seq<char>>, found: Option<Seq<char>>) -> Option<
    Seq<char>,
> {
    match named {
        Some(url) => Some(url),
        None => found,
    }
}

/// The rendered review of a file: none for an empty file.
pub open spec fn review_of(content: Seq<char>) -> Option<Seq<char>> {
    if content.len() == 0 {
        None
    } else {
        Some(plain_html(content))
    }
}

/// Where the address of a review's cover image is kept between runs.
pub open spec fn cover_cache_path(slug: Seq<char>) -> Seq<char> {
    "target/debug/odilf-site/"@ + slug
}

/// The query that asks Wikipedia for the properties of a page.
pub open spec fn page_props_query_text(title: Seq<char>) -> Seq<char> {
    "https://en.wikipedia.org/w/api.php?action=query&titles="@ + title
        + "&prop=pageprops&format=json"@
}

/// The query that asks Wikipedia for the address of an image file.
pub open spec fn image_info_query_text(page_image: Seq<char>) -> Seq<char> {
    "https://en.wikipedia.org/w/api.php?action=query&titles="@ + ("File:"@ + page_image)
        + "&prop=imageinfo&iiprop=url&format=json"@
}

/// The query that asks Wikipedia for a page's image in full size.
pub open spec fn original_image_query_text(title: Seq<char>) -> Seq<char> {
    "https://en.wikipedia.org/w/api.php?action=query&titles="@ + title
        + "&prop=pageimages&format=json&piprop=original"@
}

/// Where the address of a review's cover image is kept between runs.
pub fn cover_cache_file(slug: &str) -> (path: String)
    ensures
        path@ == cover_cache_path(slug@),
{
    let mut path = String::from_str("target/debug/odilf-site/");
    path.append(slug);
    path
}

/// Writes the query for the properties of a page.
pub fn page_props_query(title: &str) -> (query: String)
    ensures
        query@ == page_props_query_text(title@),
{
    let mut query = String::from_str("https://en.wikipedia.org/w/api.php?action=query&titles=");
    query.append(title);
    query.append("&prop=pageprops&format=json");
    query
}

/// Writes the query for the address of the image file that a page names.
pub fn image_info_query(page_image: &str) -> (query: String)
    ensures
        query@ == image_info_query_text(page_image@),
{
    let mut file = String::from_str("File:");
    file.append(page_image);
    let mut query = String::from_str("https://en.wikipedia.org/w/api.php?action=query&titles=");
    query.append(file.as_str());
    query.append("&prop=imageinfo&iiprop=url&format=json");
    query
}

/// Writes the query for a page's image in full size.
pub fn original_image_query(title: &str) -> (query: String)
    ensures
        query@ == original_image_query_text(title@),
{
    let mut query = String::from_str("https://en.wikipedia.org/w/api.php?action=query&titles=");
    query.append(title);
    query.append("&prop=pageimages&format=json&piprop=original");
    query
}

impl MediaLog {
    /// Puts a review together from its slug, its front matter, its
    /// rendered review and the cover image that was found for it, which is
    /// taken where the front matter names none. Fails with
    /// [`MediaError::NoImage`] where there is no cover image at all.
    pub fn assemble(
        slug: &str,
        draft: MediaDraft,
        review: Option<String>,
        found_image: Option<String>,
    ) -> (result: Result<MediaLog, MediaError>)
        ensures
            match cover_of(draft@.image_url, text_view(found_image)) {
                None => result matches Err(MediaError::NoImage),
                Some(cover) => result matches Ok(log) && {
                    &&& log.title == draft.title
                    &&& log.slug@ == slug@
                    &&& log.typ == draft.typ
                    &&& log.rating == draft.rating
                    &&& log.date == draft.date
                    &&& log.urls == draft.urls
                    &&& log.review == review
                    &&& log.image_url@ == cover
                },
            },
    {
        let MediaDraft { title, typ, rating, date, urls, image_url } = draft;
        let cover = match image_url {
            Some(url) => url,
            None => match found_image {
                Some(url) => url,
                None => {
                    return Err(MediaError::NoImage);
                },
            },
        };
        Ok(
            MediaLog {
                title,
                slug: String::from_str(slug),
                typ,
                rating,
                date,
                urls,
                review,
                image_url: cover,
            },
        )
    }

    /// Loads a review from its slug and the text of its file. The cover
    /// image is the one that the front matter names; where it names none,
    /// it is `found_image`, the one that was looked up for the review.
    ///
    /// Fails as the front matter does, and with [`MediaError::NoImage`]
    /// where there is no cover image at all.
    pub fn from_slug_and_content(slug: &str, content: &str, found_image: Option<String>) -> (result:
        Result<MediaLog, MediaError>)
        ensures
            match draft_outcome(front_matter_of(content@)) {
                Err(error) => result matches Err(e) && e == error,
                Ok(draft) => match cover_of(draft.image_url, text_view(found_image)) {
                    None => result matches Err(MediaError::NoImage),
                    Some(cover) => result matches Ok(log) && {
                        &&& log.title@ == draft.title
                        &&& log.slug@ == slug@
                        &&& log.typ == draft.typ
                        &&& log.rating == draft.rating
                        &&& log.date == draft.date
                        &&& source_views(log.urls@) == draft.urls
                        &&& text_view(log.review) == review_of(content@)
                        &&& log.image_url@ == cover
                    },
                },
            },
    {
        let draft = parse_media_log(content)?;
        let review = if content.is_empty() {
            None
        } else {
            let profile = site_profile();
            Some(render_plain(&profile, content))
        };
        MediaLog::assemble(slug, draft, review, found_image)
    }

    /// The class attribute of the review's line in the log.
    pub fn summary_classes(&self) -> (classes: String)
        ensures
            classes@ == "media-log-entry topic-"@ + self.typ.label(),
    {
        let mut classes = String::from_str("media-log-entry topic-");
        classes.append(self.typ.name());
        classes
    }

    /// The address of the review's page.
    pub fn page_url(&self) -> (url: String)
        ensures
            url@ == "/media-log/"@ + self.slug@,
    {
        let mut url = String::from_str("/media-log/");
        url.append(self.slug.as_str());
        url
    }

    /// The text that stands for the cover image where it cannot be shown.
    pub fn cover_alt(&self) -> (alt: String)
        ensures
            alt@ == "Cover of "@ + self.title@,
    {
        let mut alt = String::from_str("Cover of ");
        alt.append(self.title.as_str());
        alt
    }
}

} // verus!
