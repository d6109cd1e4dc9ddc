use crate::models::TimelineType;
use vstd::prelude::*;

verus! {

/// The sections of the résumé whose text is markdown.
#[derive(Debug, Clone, Copy, PartialEq, Eq, Structural)]
pub enum Section {
    About,
    Skills,
    Projects,
    Welcome,
    Timeline,
    Contact,
}

pub open spec fn section_file(section: Section) -> Seq<char> {
    match section {
        Section::About => "about.md"@,
        Section::Skills => "skills.md"@,
        Section::Projects => "projects.md"@,
        Section::Welcome => "welcome.md"@,
        Section::Timeline => "timeline.md"@,
        Section::Contact => "contact.md"@,
    }
}

impl Section {
    /// The file that holds the section's markdown.
    pub fn file_name(self) -> (r: &'static str)
        ensures
            r@ == section_file(self),
    {
        match self {
            Section::About => "about.md",
            Section::Skills => "skills.md",
            Section::Projects => "projects.md",
            Section::Welcome => "welcome.md",
            Section::Timeline => "timeline.md",
            Section::Contact => "contact.md",
        }
    }
}

/// The placeholder shown in place of a section whose file could not be read.
pub open spec fn load_failure_text(filename: Seq<char>) -> Seq<char> {
    "Error: Failed to load content from '"@ + filename + "'"@
}

/// The text of a file: what was read from it, or the placeholder.
pub open spec fn content_text(filename: Seq<char>, read: Option<String>) -> Seq<char> {
    match read {
        Some(text) => text@,
        None => load_failure_text(filename),
    }
}

/// Returns a greeting message.
pub fn greeting() -> (r: String)
    ensures
        r@ == "Hello Warp, I am David Parker."@,
{
    String::from_str("Hello Warp, I am David Parker.")
}

/// The content of a file given what reading it gave: the text read, or a
/// visible placeholder naming the file when it could not be read.
pub fn load_content(filename: &str, read: Option<String>) -> (r: String)
    ensures
        r@ == content_text(filename@, read),
{
    match read {
        Some(text) => text,
        None => {
            let mut message = String::from_str("Error: Failed to load content from '");
            message.append(filename);
            message.append("'");
            message
        },
    }
}

/// The content of a section given what reading its file gave.
pub fn section_content(section: Section, read: Option<String>) -> (r: String)
    ensures
        r@ == content_text(section_file(section), read),
{
    load_content(section.file_name(), read)
}

/// Returns the about content, given what reading its file gave.
pub fn about(read: Option<String>) -> (r: String)
    ensures
        r@ == content_text(section_file(Section::About), read),
{
    section_content(Section::About, read)
}

/// Returns the skills content, given what reading its file gave.
pub fn skills(read: Option<String>) -> (r: String)
    ensures
        r@ == content_text(section_file(Section::Skills), read),
{
    section_content(Section::Skills, read)
}

/// Returns the projects content, given what reading its file gave.
pub fn projects(read: Option<String>) -> (r: String)
    ensures
        r@ == content_text(section_file(Section::Projects), read),
{
    section_content(Section::Projects, read)
}

/// Returns the welcome content, given what reading its file gave.
pub fn welcome(read: Option<String>) -> (r: String)
    ensures
        r@ == content_text(section_file(Section::Welcome), read),
{
    section_content(Section::Welcome, read)
}

/// Returns the timeline content, given what reading its file gave.
pub fn timeline(read: Option<String>) -> (r: String)
    ensures
        r@ == content_text(section_file(Section::Timeline), read),
{
    section_content(Section::Timeline, read)
}

/// Returns the contact content, given what reading its file gave.
pub fn contact(read: Option<String>) -> (r: String)
    ensures
        r@ == content_text(section_file(Section::Contact), read),
{
    section_content(Section::Contact, read)
}

/// A link to one of the projects.
#[derive(Debug, Clone)]
pub struct ProjectLink {
    pub text: String,
    pub url: String,
}

/// The project links of the résumé.
#[derive(Debug, Clone)]
pub struct ProjectLinks {
    pub links: Vec<ProjectLink>,
}

/// A career timeline record as stored with the content.
#[derive(Debug, Clone)]
pub struct TimelineEvent {
    pub year: u32,
    pub title: String,
    pub organization: String,
    pub description: String,
    pub highlights: Vec<String>,
    pub technologies: Vec<String>,
}

/// The kind given to a record: the year taken modulo 5 picks career,
/// education, certification, project or other.
pub open spec fn type_for_year(year: u32) -> TimelineType {
    if year % 5 == 0 {
        TimelineType::Career
    } else if year % 5 == 1 {
        TimelineType::Education
    } else if year % 5 == 2 {
        TimelineType::Certification
    } else if year % 5 == 3 {
        TimelineType::Project
    } else {
        TimelineType::Other
    }
}

/// The timeline entry that a record becomes: its year as a `u16`, its kind,
/// its texts, and its highlights and technologies as present lists.
pub open spec fn event_of(r: TimelineEvent) -> crate::models::TimelineEvent {
    crate::models::TimelineEvent {
        year: r.year as u16,
        event_type: type_for_year(r.year),
        title: r.title,
        organization: r.organization,
        description: r.description,
        highlights: Some(r.highlights),
        technologies: Some(r.technologies),
    }
}

impl TimelineEvent {
    /// The timeline entry this record becomes.
    pub fn into_event(self) -> (r: crate::models::TimelineEvent)
        ensures
            r == event_of(self),
    {
        let event_type = match self.year % 5 {
            0 => TimelineType::Career,
            1 => TimelineType::Education,
            2 => TimelineType::Certification,
            3 => TimelineType::Project,
            _ => TimelineType::Other,
        };
        crate::models::TimelineEvent {
            year: self.year as u16,
            event_type,
            title: self.title,
            organization: self.organization,
            description: self.description,
            highlights: Some(self.highlights),
            technologies: Some(self.technologies),
        }
    }
}

} // verus!
