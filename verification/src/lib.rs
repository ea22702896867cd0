//! Content pipeline of a personal static site: front matter, Markdown
//! transformation, entry loading, page-generation decisions and feeds.

pub mod blog;
pub mod date;
pub mod feed;
pub mod front_matter;
pub mod markdown;
pub mod media;
pub mod pics;
pub mod projects;
pub mod site;
pub mod text;
