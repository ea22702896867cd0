//! Programming projects and the repository metadata they are drawn from.

use vstd::prelude::*;
use vstd::string::*;

verus! {

/// A moment, as seconds since the start of 1970 in UTC and the nanoseconds
/// of the second.
#[derive(Debug, Clone, Copy, PartialEq, Eq, Structural)]
pub struct Instant {
    pub seconds: i64,
    pub nanoseconds: i32,
}

/// What the forge answers for one repository.
#[derive(Debug)]
pub struct GithubResponse {
    pub id: u64,
    pub name: String,
    pub full_name: String,
    pub html_url: String,
    pub description: String,
    pub fork: bool,
    pub created_at: String,
    pub updated_at: String,
    pub pushed_at: String,
    pub homepage: Option<String>,
    pub size: u64,
    pub language: String,
    pub topics: Vec<String>,
    pub open_issues: u64,
    pub default_branch: String,
}

/// A project, as the site shows it. Its name is the key under which it is
/// kept, no field.
#[derive(Debug)]
pub struct Project {
    pub description: String,
    pub source_code_url: String,
    pub website_url: Option<String>,
    pub documentation_url: Option<String>,
    pub creation_date: Instant,
    pub last_update: Instant,
    pub image_url: Option<String>,
    pub language: Option<String>,
    pub topics: Vec<String>,
}

/// The projects of one fetch, with the moment at which they were fetched:
/// one moment for all of them.
#[derive(Debug)]
pub struct Projects {
    projects: Vec<(String, Project)>,
    last_fetched: Instant,
}

/// Why the answer of the forge gives no project.
#[derive(Debug, Clone, Copy, PartialEq, Eq, Structural)]
pub enum ProjectError {
    /// The moment of creation is none.
    CreationDate,
    /// The moment of the last push is none.
    UpdateDate,
}

/// The moment that a text states, in the notation of RFC 3339, as the
/// timestamp parser reads it; `None` where it reads none.
pub uninterp spec fn instant_of(text: Seq<char>) -> Option<Instant>;

/// Reads a moment with the `FromStr` of `jiff::Timestamp`, and takes its
/// `as_second` and `subsec_nanosecond`. What comes back depends on the text
/// alone.
#[verifier::external_body]
fn parse_instant(text: &str) -> (parsed: Option<Instant>)
    ensures
        parsed == instant_of(text@),
{
    let moment: jiff::Timestamp = text.parse().ok()?;
    Some(Instant { seconds: moment.as_second(), nanoseconds: moment.subsec_nanosecond() })
}

/// The present moment, from the system's clock through
/// `jiff::Timestamp::try_from`. `None` where the clock's time lies outside
/// the years that a moment can hold.
#[verifier::external_body]
fn now() -> (moment: Option<Instant>) {
    let moment = jiff::Timestamp::try_from(std::time::SystemTime::now()).ok()?;
    Some(Instant { seconds: moment.as_second(), nanoseconds: moment.subsec_nanosecond() })
}

/// The address at which the forge answers for a repository.
pub open spec fn repository_url_of(project_name: Seq<char>) -> Seq<char> {
    "https://api.github.com/repos/odilf/"@ + project_name
}

/// The address at which the forge answers for a repository.
pub fn repository_url(project_name: &str) -> (url: String)
    ensures
        url@ == repository_url_of(project_name@),
{
    let mut url = String::from_str("https://api.github.com/repos/odilf/");
    url.append(project_name);
    url
}

/// The value of the header that authorizes a request with a token.
pub fn bearer(token: &str) -> (header: String)
    ensures
        header@ == "Bearer "@ + token@,
{
    let mut header = String::from_str("Bearer ");
    header.append(token);
    header
}

impl Project {
    /// The address that the project's name links to.
    pub open spec fn link(self) -> Seq<char> {
        match self.website_url {
            Some(url) => url@,
            None => self.source_code_url@,
        }
    }

    /// The address that the project's name links to: its website, and its
    /// source code where it has none.
    pub fn main_link(&self) -> (link: &str)
        ensures
            link@ == self.link(),
    {
        match &self.website_url {
            Some(url) => url.as_str(),
            None => self.source_code_url.as_str(),
        }
    }
}

/// Makes a project of what the forge answers for a repository, under the
/// repository's name, given the moments that the answer states for its
/// creation and its last push. Fails where one of them is none, the
/// creation first.
pub fn project_with_moments(
    response: GithubResponse,
    created: Option<Instant>,
    pushed: Option<Instant>,
) -> (result: Result<(String, Project), ProjectError>)
    ensures
        created is None ==> result == Err::<(String, Project), ProjectError>(
            ProjectError::CreationDate,
        ),
        created is Some && pushed is None ==> result == Err::<(String, Project), ProjectError>(
            ProjectError::UpdateDate,
        ),
        created is Some && pushed is Some ==> (result matches Ok((name, project)) && {
            &&& name == response.name
            &&& project.description == response.description
            &&& project.source_code_url == response.html_url
            &&& project.website_url == response.homepage
            &&& project.documentation_url is None
            &&& Some(project.creation_date) == created
            &&& Some(project.last_update) == pushed
            &&& project.image_url is None
            &&& project.language == Some(response.language)
            &&& project.topics == response.topics
        }),
{
    let Some(creation_date) = created else {
        return Err(ProjectError::CreationDate);
    };
    let Some(last_update) = pushed else {
        return Err(ProjectError::UpdateDate);
    };
    let project = Project {
        description: response.description,
        source_code_url: response.html_url,
        website_url: response.homepage,
        documentation_url: None,
        creation_date,
        last_update,
        image_url: None,
        language: Some(response.language),
        topics: response.topics,
    };
    Ok((response.name, project))
}

/// Makes a project of what the forge answers for a repository: reads the
/// moments of its creation and its last push and hands on to
/// [`project_with_moments`].
pub fn project_from_response(response: GithubResponse) -> (result: Result<
    (String, Project),
    ProjectError,
>)
    ensures
        instant_of(response.created_at@) is None ==> result == Err::<
            (String, Project),
            ProjectError,
        >(ProjectError::CreationDate),
        instant_of(response.created_at@) is Some && instant_of(response.pushed_at@) is None
            ==> result == Err::<(String, Project), ProjectError>(ProjectError::UpdateDate),
        instant_of(response.created_at@) is Some && instant_of(response.pushed_at@) is Some ==> (
        result matches Ok((name, project)) && {
            &&& name == response.name
            &&& project.description == response.description
            &&& project.source_code_url == response.html_url
            &&& project.website_url == response.homepage
            &&& project.documentation_url is None
            &&& Some(project.creation_date) == instant_of(response.created_at@)
            &&& Some(project.last_update) == instant_of(response.pushed_at@)
            &&& project.image_url is None
            &&& project.language == Some(response.language)
            &&& project.topics == response.topics
        }),
{
    let created = parse_instant(response.created_at.as_str());
    let pushed = parse_instant(response.pushed_at.as_str());
    project_with_moments(response, created, pushed)
}

impl Projects {
    /// The projects, each under its name.
    pub closed spec fn entries(self) -> Seq<(String, Project)> {
        self.projects@
    }

    /// The moment at which the projects were fetched.
    pub closed spec fn fetched(self) -> Instant {
        self.last_fetched
    }

    /// Keeps the projects of a fetch that ends now. `None` only where the
    /// clock gives no moment.
    pub fn new(projects: Vec<(String, Project)>) -> (kept: Option<Projects>)
        ensures
            kept matches Some(snapshot) ==> snapshot.entries() == projects@,
    {
        Projects::fetched_when(projects, now())
    }

    /// Keeps the projects of a fetch that ended at the moment that the
    /// clock gave, and nothing where it gave none.
    pub fn fetched_when(projects: Vec<(String, Project)>, moment: Option<Instant>) -> (kept: Option<
        Projects,
    >)
        ensures
            match moment {
                Some(last_fetched) => kept matches Some(snapshot) && snapshot.entries()
                    == projects@ && snapshot.fetched() == last_fetched,
                None => kept is None,
            },
    {
        match moment {
            Some(last_fetched) => Some(Projects::fetched_at(projects, last_fetched)),
            None => None,
        }
    }

    /// Keeps the projects of a fetch that ended at `last_fetched`.
    pub fn fetched_at(projects: Vec<(String, Project)>, last_fetched: Instant) -> (kept: Projects)
        ensures
            kept.entries() == projects@,
            kept.fetched() == last_fetched,
    {
        Projects { projects, last_fetched }
    }

    /// The projects, each under its name, in the order in which they were
    /// fetched.
    pub fn iter(&self) -> (projects: &Vec<(String, Project)>)
        ensures
            projects@ == self.entries(),
    {
        &self.projects
    }

    /// The moment at which the projects were fetched.
    pub fn last_fetched(&self) -> (moment: Instant)
        ensures
            moment == self.fetched(),
    {
        self.last_fetched
    }
}

} // verus!
