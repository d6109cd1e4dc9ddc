use vstd::prelude::*;

verus! {

/// One skill and its proficiency, in percent.
#[derive(Debug, Clone)]
pub struct Skill {
    pub name: String,
    pub level: u8,
}

/// A named group of skills, kept in the order they were listed.
#[derive(Debug, Clone)]
pub struct SkillCategory {
    pub name: String,
    pub skills: Vec<Skill>,
}

/// Every skill category of the résumé.
#[derive(Debug, Clone)]
pub struct SkillsData {
    pub categories: Vec<SkillCategory>,
}

/// The kind of a career timeline entry.
#[derive(Debug, Clone, Copy, PartialEq, Eq, Structural)]
pub enum TimelineType {
    Career,
    Education,
    Certification,
    Project,
    Other,
}

/// One entry of the career timeline; never changed once loaded.
#[derive(Debug, Clone)]
pub struct TimelineEvent {
    pub year: u16,
    pub event_type: TimelineType,
    pub title: String,
    pub organization: String,
    pub description: String,
    pub highlights: Option<Vec<String>>,
    pub technologies: Option<Vec<String>>,
}

/// Which timeline entries are shown; every entry is.
#[derive(Debug, Clone, Copy, PartialEq, Eq, Structural)]
pub enum TimelineFilter {
    All,
}

/// The whole career timeline.
#[derive(Debug, Clone)]
pub struct TimelineData {
    pub timeline: Vec<TimelineEvent>,
}

/// A hyperlink found while rendering markdown: the text run that carries it,
/// its destination, and where that run stands among the rendered lines.
#[derive(Debug, Clone)]
pub struct Link {
    pub text: String,
    pub url: String,
    pub line: usize,
    pub start_column: usize,
    pub end_column: usize,
}

/// A link as a mathematical value.
pub struct LinkView {
    pub text: Seq<char>,
    pub url: Seq<char>,
    pub line: nat,
    pub start_column: nat,
    pub end_column: nat,
}

impl View for Link {
    type V = LinkView;

    open spec fn view(&self) -> LinkView {
        LinkView {
            text: self.text@,
            url: self.url@,
            line: self.line as nat,
            start_column: self.start_column as nat,
            end_column: self.end_column as nat,
        }
    }
}

pub open spec fn links_view(links: Seq<Link>) -> Seq<LinkView> {
    links.map_values(|l: Link| l@)
}

/// The screens of the application; exactly one is shown at a time.
#[derive(Debug, Clone, Copy, PartialEq, Eq, Structural)]
pub enum DisplayMode {
    Menu,
    About,
    Skills,
    /// Per-category proficiency bars of the skills section.
    SkillsVisual,
    Projects,
    ProjectLinks,
    Timeline,
    Contact,
}

} // verus!
