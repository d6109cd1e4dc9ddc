use crate::content::{event_of, ProjectLink, TimelineEvent as TimelineRecord};
use crate::event::{Event, KeyEvent};
use crate::handlers::{
    handle_key, in_bounds, initial_navigation, key_step, page_count, skills_in, ContentSnapshot,
    NavigationState, SnapshotView,
};
use crate::markdown::{markdown_links, parse_markdown};
use crate::models::{links_view, Link, SkillCategory, SkillsData, TimelineEvent, TimelineFilter};
use vstd::multiset::Multiset;
use vstd::prelude::*;

verus! {

/// How many skills a page shows until the screen reports its own size.
pub const DEFAULT_SKILLS_PAGE_SIZE: usize = 5;

/// Everything the content provider supplies: the markdown of each section and
/// the structured records.
pub struct Content {
    pub about_content: String,
    pub skills_content: String,
    pub projects_content: String,
    pub welcome_content: String,
    pub timeline_content: String,
    pub contact_content: String,
    pub skills_data: SkillsData,
    pub project_links: Vec<ProjectLink>,
    pub timeline: Vec<TimelineRecord>,
}

/// A session: the content shown and the navigation state over it.
pub struct App {
    pub nav: NavigationState,
    pub timeline_filter: TimelineFilter,
    pub about_content: String,
    pub skills_content: String,
    pub projects_content: String,
    pub welcome_content: String,
    pub timeline_content: String,
    pub contact_content: String,
    pub skills_data: SkillsData,
    /// How many skills one page shows; the screen sets it from its size.
    pub skills_page_size: usize,
    pub project_links: Vec<ProjectLink>,
    /// The links of the projects page, in the order they were rendered.
    pub links: Vec<Link>,
    /// The timeline, oldest entry first.
    pub timeline_events: Vec<TimelineEvent>,
}

/// Entries in ascending order of year.
pub open spec fn sorted_by_year(s: Seq<TimelineEvent>) -> bool {
    forall|i: int, j: int| 0 <= i < j < s.len() ==> s[i].year <= s[j].year
}

/// The entries of one year, in the order they stand.
pub open spec fn of_year(s: Seq<TimelineEvent>, year: u16) -> Seq<TimelineEvent>
    decreases s.len(),
{
    if s.len() == 0 {
        Seq::empty()
    } else if s.last().year == year {
        of_year(s.drop_last(), year).push(s.last())
    } else {
        of_year(s.drop_last(), year)
    }
}

proof fn lemma_of_year_concat(a: Seq<TimelineEvent>, b: Seq<TimelineEvent>, year: u16)
    ensures
        of_year(a + b, year) == of_year(a, year) + of_year(b, year),
    decreases b.len(),
{
    if b.len() == 0 {
        assert(a + b =~= a);
        assert(of_year(a, year) + of_year(b, year) =~= of_year(a, year));
    } else {
        assert((a + b).drop_last() =~= a + b.drop_last());
        lemma_of_year_concat(a, b.drop_last(), year);
        assert((a + b).last() == b.last());
        if b.last().year == year {
            assert(of_year(a, year) + of_year(b.drop_last(), year).push(b.last()) =~= (of_year(
                a,
                year,
            ) + of_year(b.drop_last(), year)).push(b.last()));
        }
    }
}

proof fn lemma_of_year_none(s: Seq<TimelineEvent>, year: u16)
    requires
        forall|j: int| 0 <= j < s.len() ==> s[j].year != year,
    ensures
        of_year(s, year) == Seq::<TimelineEvent>::empty(),
    decreases s.len(),
{
    if s.len() > 0 {
        lemma_of_year_none(s.drop_last(), year);
    }
}

/// Inserting an entry after every entry of its year or earlier, and before
/// every later one, appends it to the entries of its year.
proof fn lemma_of_year_insert(s: Seq<TimelineEvent>, k: int, e: TimelineEvent, year: u16)
    requires
        0 <= k <= s.len(),
        forall|j: int| k <= j < s.len() ==> s[j].year > e.year,
    ensures
        of_year(s.insert(k, e), year) == if e.year == year {
            of_year(s, year).push(e)
        } else {
            of_year(s, year)
        },
{
    let a = s.take(k);
    let b = s.skip(k);
    let single: Seq<TimelineEvent> = seq![e];
    assert(s =~= a + b);
    assert(s.insert(k, e) =~= (a + single) + b);
    lemma_of_year_concat(a + single, b, year);
    lemma_of_year_concat(a, single, year);
    lemma_of_year_concat(a, b, year);
    assert(single.drop_last() =~= Seq::<TimelineEvent>::empty());
    assert(of_year(Seq::<TimelineEvent>::empty(), year) == Seq::<TimelineEvent>::empty());
    assert(of_year(single, year) == if e.year == year {
        Seq::<TimelineEvent>::empty().push(e)
    } else {
        Seq::<TimelineEvent>::empty()
    });
    if e.year == year {
        assert forall|j: int| 0 <= j < b.len() implies b[j].year != year by {
            assert(b[j] == s[k + j]);
        }
        lemma_of_year_none(b, year);
        assert((of_year(a, year) + of_year(single, year)) + of_year(b, year) =~= of_year(
            a,
            year,
        ).push(e));
        assert(of_year(a, year) + of_year(b, year) =~= of_year(a, year));
    } else {
        assert(of_year(a, year) + of_year(single, year) =~= of_year(a, year));
    }
}

/// The timeline entries of a list of records, oldest first: a reordering of
/// the entries the records become, sorted by year, where the entries of each
/// year keep the order of their records.
pub fn sorted_timeline(records: Vec<TimelineRecord>) -> (r: Vec<TimelineEvent>)
    ensures
        sorted_by_year(r@),
        forall|year: u16| #[trigger]
            of_year(r@, year) == of_year(
                records@.map_values(|x: TimelineRecord| event_of(x)),
                year,
            ),
        r@.to_multiset() == records@.map_values(|x: TimelineRecord| event_of(x)).to_multiset(),
{
    let ghost all = records@.map_values(|x: TimelineRecord| event_of(x));
    let ghost mut consumed: Seq<TimelineEvent> = Seq::empty();
    let mut rest = records;
    let mut out: Vec<TimelineEvent> = Vec::new();
    proof {
        vstd::seq_lib::lemma_multiset_commutative(out@, all);
        assert(out@ + all =~= all);
        assert(consumed + all =~= all);
    }
    while rest.len() > 0
        invariant
            sorted_by_year(out@),
            (out@ + rest@.map_values(|x: TimelineRecord| event_of(x))).to_multiset()
                == all.to_multiset(),
            consumed + rest@.map_values(|x: TimelineRecord| event_of(x)) == all,
            forall|year: u16| #[trigger] of_year(out@, year) == of_year(consumed, year),
        decreases rest.len(),
    {
        let ghost before = rest@.map_values(|x: TimelineRecord| event_of(x));
        let ghost out_before = out@;
        let event = rest.remove(0).into_event();
        assert(rest@.map_values(|x: TimelineRecord| event_of(x)) =~= before.drop_first());
        let mut k: usize = 0;
        while k < out.len() && out[k].year <= event.year
            invariant
                k <= out.len(),
                forall|j: int| 0 <= j < k ==> out@[j].year <= event.year,
            decreases out.len() - k,
        {
            k = k + 1;
        }
        out.insert(k, event);
        proof {
            let after = rest@.map_values(|x: TimelineRecord| event_of(x));
            vstd::seq_lib::to_multiset_insert(out_before, k as int, event);
            vstd::seq_lib::lemma_multiset_commutative(out_before, before);
            vstd::seq_lib::lemma_multiset_commutative(out@, after);
            assert(before =~= seq![event] + after);
            vstd::seq_lib::lemma_multiset_commutative(seq![event], after);
            assert(seq![event].to_multiset() =~= Multiset::singleton(event)) by {
                broadcast use vstd::seq_lib::group_to_multiset_ensures;

                assert(seq![event] =~= Seq::<TimelineEvent>::empty().push(event));
            }
            assert forall|i: int, j: int| 0 <= i < j < out@.len() implies out@[i].year
                <= out@[j].year by {
                if k < out_before.len() && j > k {
                    assert(out_before[k as int].year > event.year);
                }
            }
            assert forall|j: int| k <= j < out_before.len() implies out_before[j].year
                > event.year by {
                assert(out_before[k as int].year > event.year);
            }
            let next = consumed.push(event);
            assert(next.drop_last() =~= consumed);
            assert forall|year: u16| #[trigger] of_year(out@, year) == of_year(next, year) by {
                lemma_of_year_insert(out_before, k as int, event, year);
            }
            assert(next + after =~= consumed + before);
            consumed = next;
        }
    }
    assert(out@ + Seq::<TimelineEvent>::empty() =~= out@);
    assert(consumed + Seq::<TimelineEvent>::empty() =~= consumed);
    out
}

impl App {
    /// The sizes that bound the navigation.
    pub open spec fn snapshot_view(&self) -> SnapshotView {
        SnapshotView {
            skill_counts: self.skills_data.categories@.map_values(
                |c: SkillCategory| c.skills@.len() as usize,
            ),
            link_count: self.links@.len() as usize,
            timeline_count: self.timeline_events@.len() as usize,
            skills_page_size: self.skills_page_size,
        }
    }

    /// A session over `content`: on the menu with its first entry selected,
    /// the links of the projects page found, and the timeline sorted by year
    /// (entries of one year in the order of their records).
    pub fn new(content: Content) -> (r: App)
        ensures
            r.nav == initial_navigation(),
            r.timeline_filter == TimelineFilter::All,
            r.about_content == content.about_content,
            r.skills_content == content.skills_content,
            r.projects_content == content.projects_content,
            r.welcome_content == content.welcome_content,
            r.timeline_content == content.timeline_content,
            r.contact_content == content.contact_content,
            r.skills_data == content.skills_data,
            r.skills_page_size == DEFAULT_SKILLS_PAGE_SIZE,
            r.project_links == content.project_links,
            links_view(r.links@) == markdown_links(content.projects_content@),
            sorted_by_year(r.timeline_events@),
            forall|year: u16| #[trigger]
                of_year(r.timeline_events@, year) == of_year(
                    content.timeline@.map_values(|x: TimelineRecord| event_of(x)),
                    year,
                ),
            r.timeline_events@.to_multiset() == content.timeline@.map_values(
                |x: TimelineRecord| event_of(x),
            ).to_multiset(),
    {
        let (_, links) = parse_markdown(content.projects_content.as_str());
        let timeline_events = sorted_timeline(content.timeline);
        App {
            nav: NavigationState::new(),
            timeline_filter: TimelineFilter::All,
            about_content: content.about_content,
            skills_content: content.skills_content,
            projects_content: content.projects_content,
            welcome_content: content.welcome_content,
            timeline_content: content.timeline_content,
            contact_content: content.contact_content,
            skills_data: content.skills_data,
            skills_page_size: DEFAULT_SKILLS_PAGE_SIZE,
            project_links: content.project_links,
            links,
            timeline_events,
        }
    }

    /// The sizes that bound the navigation, taken from the content.
    pub fn snapshot(&self) -> (r: ContentSnapshot)
        ensures
            r@ == self.snapshot_view(),
    {
        let mut counts: Vec<usize> = Vec::new();
        let mut i: usize = 0;
        while i < self.skills_data.categories.len()
            invariant
                i <= self.skills_data.categories.len(),
                counts@ =~= self.skills_data.categories@.take(i as int).map_values(
                    |c: SkillCategory| c.skills@.len() as usize,
                ),
            decreases self.skills_data.categories.len() - i,
        {
            counts.push(self.skills_data.categories[i].skills.len());
            i = i + 1;
        }
        assert(self.skills_data.categories@.take(i as int) =~= self.skills_data.categories@);
        ContentSnapshot {
            skill_counts: counts,
            link_count: self.links.len(),
            timeline_count: self.timeline_events.len(),
            skills_page_size: self.skills_page_size,
        }
    }

    /// Handles a key event. Only the navigation state changes; when the event
    /// asks for a project link to be opened, its URL is returned.
    pub fn handle_key_event(&mut self, key: KeyEvent) -> (r: Option<String>)
        ensures
            final(self).nav == key_step(old(self).nav, key, old(self).snapshot_view()).0,
            *final(self) == (App { nav: final(self).nav, ..*old(self) }),
            r == match key_step(old(self).nav, key, old(self).snapshot_view()).1 {
                Some(i) => Some(old(self).links@[i as int].url),
                None => None::<String>,
            },
            in_bounds(old(self).nav, old(self).snapshot_view()) ==> in_bounds(
                final(self).nav,
                final(self).snapshot_view(),
            ),
    {
        let snap = self.snapshot();
        let action = handle_key(&mut self.nav, key, &snap);
        match action {
            Some(i) => Some(self.links[i].url.clone()),
            None => None,
        }
    }

    /// Handles a terminal event: key events as above; ticks and resizes
    /// change nothing.
    pub fn handle_event(&mut self, event: Event) -> (r: Option<String>)
        ensures
            event matches Event::Key(key) ==> final(self).nav == key_step(
                old(self).nav,
                key,
                old(self).snapshot_view(),
            ).0 && r == match key_step(old(self).nav, key, old(self).snapshot_view()).1 {
                Some(i) => Some(old(self).links@[i as int].url),
                None => None::<String>,
            },
            !(event is Key) ==> final(self).nav == old(self).nav && r is None,
            *final(self) == (App { nav: final(self).nav, ..*old(self) }),
    {
        match event {
            Event::Key(key) => self.handle_key_event(key),
            _ => None,
        }
    }

    /// Sets how many skills one page shows, and brings the page shown back
    /// within the pages of the selected category.
    pub fn set_skills_page_size(&mut self, size: usize)
        ensures
            final(self).skills_page_size == size,
            ({
                let pages = page_count(
                    skills_in(final(self).snapshot_view(), old(self).nav.skill_category_index),
                    size,
                );
                final(self).nav == (NavigationState {
                    skills_page: if old(self).nav.skills_page < pages {
                        old(self).nav.skills_page
                    } else if pages > 0 {
                        (pages - 1) as usize
                    } else {
                        0
                    },
                    ..old(self).nav
                })
            }),
            *final(self) == (App {
                nav: final(self).nav,
                skills_page_size: size,
                ..*old(self)
            }),
            in_bounds(old(self).nav, old(self).snapshot_view()) ==> in_bounds(
                final(self).nav,
                final(self).snapshot_view(),
            ),
    {
        self.skills_page_size = size;
        let snap = self.snapshot();
        let cat = self.nav.skill_category_index;
        let in_category = if cat < snap.skill_counts.len() {
            snap.skill_counts[cat]
        } else {
            0
        };
        let pages = crate::handlers::page_count_of(in_category, size);
        if self.nav.skills_page >= pages {
            self.nav.skills_page = if pages > 0 {
                pages - 1
            } else {
                0
            };
        }
    }

    /// The timeline entries shown; every entry is.
    pub fn get_filtered_events(&self) -> (r: Vec<&TimelineEvent>)
        ensures
            r@.len() == self.timeline_events@.len(),
            forall|i: int| 0 <= i < r@.len() ==> *r@[i] == self.timeline_events@[i],
    {
        let mut r: Vec<&TimelineEvent> = Vec::new();
        let mut i: usize = 0;
        while i < self.timeline_events.len()
            invariant
                i <= self.timeline_events.len(),
                r@.len() == i,
                forall|j: int| 0 <= j < i ==> *r@[j] == self.timeline_events@[j],
            decreases self.timeline_events.len() - i,
        {
            r.push(&self.timeline_events[i]);
            i = i + 1;
        }
        r
    }
}

} // verus!
