//! The page-generation driver's decisions: which files of the content
//! directory become entries, what is written for them, what a failure
//! means for the run, and what remains to do once every file was seen.
//!
//! Subdirectories of the content directory are passed over, not walked.

use vstd::prelude::*;
use vstd::string::*;

use crate::blog::{
    days, is_entry_of, is_failure_of, is_loaded, newest_first, on_day, sort_by_date, BlogEntry,
};
use crate::date::CalendarDate;
use crate::markdown::{image_urls, parsed_nodes, texts, MarkdownError};
use crate::text::char_len;

verus! {

/// The slug of a content file: its name without the extension `.md`. A name
/// that does not end in `.md`, or that has nothing before it, has none.
pub open spec fn slug_of(name: Seq<char>) -> Option<Seq<char>> {
    if name.len() > 3 && name.skip(name.len() - 3) == ".md"@ {
        Some(name.take(name.len() - 3))
    } else {
        None
    }
}

/// Finds the slug of a content file from its name.
pub fn entry_slug(name: &str) -> (slug: Option<String>)
    ensures
        match slug {
            Some(text) => slug_of(name@) == Some(text@),
            None => slug_of(name@) is None,
        },
{
    let len = char_len(name);
    if len <= 3 {
        return None;
    }
    let extension = String::from_str(name.substring_char(len - 3, len));
    proof {
        assert(name@.subrange(len - 3, len as int) =~= name@.skip(len - 3));
        assert(name@.subrange(0, len - 3) =~= name@.take(len - 3));
    }
    if extension == String::from_str(".md") {
        Some(String::from_str(name.substring_char(0, len - 3)))
    } else {
        None
    }
}

/// What the driver does with one path of the content directory.
#[derive(Debug)]
pub enum Visit {
    /// A directory: passed over.
    SkipDirectory,
    /// A file that is no Markdown file: passed over.
    SkipOther,
    /// A Markdown file: to be read and loaded under this slug.
    Read { slug: String },
}

/// Decides what to do with a path of the content directory, given its file
/// name and whether it is a directory.
pub fn visit(name: &str, is_dir: bool) -> (decision: Visit)
    ensures
        is_dir ==> decision is SkipDirectory,
        !is_dir && slug_of(name@) is None ==> decision is SkipOther,
        !is_dir && slug_of(name@) is Some ==> (decision matches Visit::Read { slug } && Some(slug@)
            == slug_of(name@)),
{
    if is_dir {
        return Visit::SkipDirectory;
    }
    match entry_slug(name) {
        Some(slug) => Visit::Read { slug },
        None => Visit::SkipOther,
    }
}

/// Where the page of an entry is written, below the output directory.
pub open spec fn page_path_of(slug: Seq<char>) -> Seq<char> {
    "blog/"@ + slug + "/index.html"@
}

/// Where the page of an entry is written, below the output directory.
pub fn page_path(slug: &str) -> (path: String)
    ensures
        path@ == page_path_of(slug@),
{
    let mut path = String::from_str("blog/");
    path.append(slug);
    path.append("/index.html");
    path
}

/// Where the index of the blog is written, below the output directory.
pub const INDEX_PATH: &'static str = "blog/index.html";

/// Where the RSS feed is written, below the output directory.
pub const RSS_PATH: &'static str = "blog/rss.xml";

/// Where the Atom feed is written, below the output directory.
pub const ATOM_PATH: &'static str = "blog/atom.xml";

/// The steps of a run that can fail.
#[derive(Debug, Clone, Copy, PartialEq, Eq, Structural)]
pub enum Stage {
    /// Making the output directory.
    CreateOutput,
    /// Listing the content directory.
    ListContent,
    /// Reading one path of the content directory, or its file.
    ReadEntry,
    /// Loading the entry of one file.
    LoadEntry,
    /// Writing the page of one entry.
    WritePage,
    /// Writing the index.
    WriteIndex,
    /// Writing a feed.
    WriteFeed,
    /// Copying a referenced asset.
    CopyAsset,
}

/// Whether a failure at this stage ends the run. What concerns one file is
/// logged and the file left out; a broken output is fatal.
pub open spec fn is_fatal(stage: Stage) -> bool {
    !(stage is ReadEntry || stage is LoadEntry || stage is WritePage)
}

/// Tells whether a failure at `stage` ends the run.
pub fn aborts_run(stage: Stage) -> (fatal: bool)
    ensures
        fatal == is_fatal(stage),
{
    match stage {
        Stage::ReadEntry | Stage::LoadEntry | Stage::WritePage => false,
        _ => true,
    }
}

/// What came of loading one file.
#[derive(Debug)]
pub enum Loaded {
    /// The file gives no entry: it has no valid front matter, or it is a
    /// draft and drafts are left out.
    Skipped,
    /// The file could not be transformed; to be logged, the file left out.
    Failed(MarkdownError),
    /// The entry, and where its page is to be written.
    Page { path: String, entry: BlogEntry },
}

/// The state of a run over the content directory.
#[derive(Debug)]
pub struct Walk {
    /// Whether drafts become entries.
    pub include_drafts: bool,
    /// The entries whose pages were written, in the order of the walk.
    pub entries: Vec<BlogEntry>,
    /// The assets that the files seen so far refer to.
    pub referenced_urls: Vec<String>,
}

/// What is left to do when every file was seen.
#[derive(Debug)]
pub struct Plan {
    /// The entries for the index and the feeds: newest first, entries of
    /// one day in the order of the walk.
    pub entries: Vec<BlogEntry>,
    /// The assets to copy from the content directory to the output, each
    /// under its own relative path.
    pub assets: Vec<String>,
}

impl Walk {
    /// Starts a run that has seen nothing.
    pub fn new(include_drafts: bool) -> (walk: Walk)
        ensures
            walk.include_drafts == include_drafts,
            walk.entries@.len() == 0,
            walk.referenced_urls@.len() == 0,
    {
        Walk { include_drafts, entries: Vec::new(), referenced_urls: Vec::new() }
    }

    /// Loads the entry of a file that was read. The assets that the file
    /// refers to are recorded whenever the file is transformed, also where
    /// that fails; the entry itself joins the run only once its page is
    /// written, see [`Walk::accept`].
    pub fn load(&mut self, slug: &str, content: &str) -> (loaded: Loaded)
        ensures
            final(self).include_drafts == old(self).include_drafts,
            final(self).entries == old(self).entries,
            !is_loaded(content@, old(self).include_drafts) ==> loaded is Skipped
                && final(self).referenced_urls@ == old(self).referenced_urls@,
            is_loaded(content@, old(self).include_drafts) ==> {
                &&& texts(final(self).referenced_urls@) == texts(old(self).referenced_urls@)
                    + image_urls(parsed_nodes(content@), parsed_nodes(content@).len())
                &&& match loaded {
                    Loaded::Page { path, entry } => path@ == page_path_of(slug@) && is_entry_of(
                        entry,
                        slug@,
                        content@,
                    ),
                    Loaded::Failed(error) => is_failure_of(error, content@),
                    Loaded::Skipped => false,
                }
            },
    {
        match BlogEntry::from_slug_and_content(
            slug,
            content,
            &mut self.referenced_urls,
            self.include_drafts,
        ) {
            Ok(None) => Loaded::Skipped,
            Err(error) => Loaded::Failed(error),
            Ok(Some(entry)) => Loaded::Page { path: page_path(slug), entry },
        }
    }

    /// Takes in an entry whose page was written.
    pub fn accept(&mut self, entry: BlogEntry)
        ensures
            final(self).include_drafts == old(self).include_drafts,
            final(self).referenced_urls == old(self).referenced_urls,
            final(self).entries@ == old(self).entries@.push(entry),
    {
        self.entries.push(entry);
    }

    /// Ends the walk: orders the entries for the index and the feeds, and
    /// hands over the assets to copy, every one that a file referred to,
    /// in the order in which they were met.
    pub fn finish(self) -> (plan: Plan)
        ensures
            plan.assets == self.referenced_urls,
            plan.entries@.len() == self.entries@.len(),
            plan.entries@.to_multiset() == self.entries@.to_multiset(),
            newest_first(days(plan.entries@)),
            forall|day: CalendarDate| #[trigger]
                on_day(plan.entries@, day) == on_day(self.entries@, day),
    {
        Plan { entries: sort_by_date(self.entries), assets: self.referenced_urls }
    }
}

} // verus!
