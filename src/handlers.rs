use crate::event::{KeyCode, KeyEvent, KeyEventKind};
use crate::models::DisplayMode;
use vstd::prelude::*;

verus! {

/// Index of the last entry of the menu (About, Skills, Projects, Timeline, Contact).
pub const LAST_MENU_INDEX: usize = 4;

/// Menu index of the Skills entry.
pub const SKILLS_MENU_INDEX: usize = 1;

/// Menu index of the Timeline entry.
pub const TIMELINE_MENU_INDEX: usize = 3;

/// The navigation state of a session: which screen is shown, which screen was
/// left last, and the selection within each list. Only the fields of the
/// screen shown are meaningful; the others keep their last value.
#[derive(Debug, Clone, Copy, PartialEq, Eq, Structural)]
pub struct NavigationState {
    pub display_mode: DisplayMode,
    pub previous_mode: DisplayMode,
    pub menu_index: usize,
    pub link_index: usize,
    pub skill_category_index: usize,
    pub skills_page: usize,
    pub timeline_index: usize,
    pub timeline_event_index: usize,
    pub timeline_detail_view: bool,
    pub should_exit: bool,
}

pub open spec fn initial_navigation() -> NavigationState {
    NavigationState {
        display_mode: DisplayMode::Menu,
        previous_mode: DisplayMode::Menu,
        menu_index: 0,
        link_index: 0,
        skill_category_index: 0,
        skills_page: 0,
        timeline_index: 0,
        timeline_event_index: 0,
        timeline_detail_view: false,
        should_exit: false,
    }
}

impl NavigationState {
    /// The state a session starts in: the menu, with its first entry selected.
    pub fn new() -> (r: NavigationState)
        ensures
            r == initial_navigation(),
    {
        NavigationState {
            display_mode: DisplayMode::Menu,
            previous_mode: DisplayMode::Menu,
            menu_index: 0,
            link_index: 0,
            skill_category_index: 0,
            skills_page: 0,
            timeline_index: 0,
            timeline_event_index: 0,
            timeline_detail_view: false,
            should_exit: false,
        }
    }
}

/// The sizes of the content that bound the selections: the number of skills
/// in each category, the number of links on the projects page, the number of
/// timeline entries, and how many skills one page shows.
#[derive(Debug, Clone)]
pub struct ContentSnapshot {
    pub skill_counts: Vec<usize>,
    pub link_count: usize,
    pub timeline_count: usize,
    pub skills_page_size: usize,
}

pub struct SnapshotView {
    pub skill_counts: Seq<usize>,
    pub link_count: usize,
    pub timeline_count: usize,
    pub skills_page_size: usize,
}

impl View for ContentSnapshot {
    type V = SnapshotView;

    open spec fn view(&self) -> SnapshotView {
        SnapshotView {
            skill_counts: self.skill_counts@,
            link_count: self.link_count,
            timeline_count: self.timeline_count,
            skills_page_size: self.skills_page_size,
        }
    }
}

/// Number of skills in a category; none for a category that does not exist.
pub open spec fn skills_in(snap: SnapshotView, category: usize) -> usize {
    if category < snap.skill_counts.len() {
        snap.skill_counts[category as int]
    } else {
        0
    }
}

/// Number of pages that `n` items take, `size` to a page (a size of zero
/// counts as one).
pub open spec fn page_count(n: usize, size: usize) -> int {
    if size == 0 {
        n as int
    } else {
        n / size + if n % size == 0 {
            0int
        } else {
            1int
        }
    }
}

/// An index into a collection of `n` items: below `n`, or 0 when there is none.
pub open spec fn index_ok(i: usize, n: int) -> bool {
    i == 0 || i < n
}

/// Every selection lies within the collection it selects from.
pub open spec fn in_bounds(s: NavigationState, snap: SnapshotView) -> bool {
    &&& s.menu_index <= LAST_MENU_INDEX
    &&& index_ok(s.link_index, snap.link_count as int)
    &&& index_ok(s.skill_category_index, snap.skill_counts.len() as int)
    &&& index_ok(
        s.skills_page,
        page_count(skills_in(snap, s.skill_category_index), snap.skills_page_size),
    )
    &&& index_ok(s.timeline_index, snap.timeline_count as int)
    &&& index_ok(s.timeline_event_index, snap.timeline_count as int)
}

pub open spec fn is_quit(c: KeyCode) -> bool {
    c == KeyCode::Char('q')
}

pub open spec fn is_back(c: KeyCode) -> bool {
    c == KeyCode::Esc || c == KeyCode::Backspace
}

pub open spec fn is_up(c: KeyCode) -> bool {
    c == KeyCode::Up || c == KeyCode::Char('k')
}

pub open spec fn is_down(c: KeyCode) -> bool {
    c == KeyCode::Down || c == KeyCode::Char('j')
}

pub open spec fn is_left(c: KeyCode) -> bool {
    c == KeyCode::Left || c == KeyCode::Char('h')
}

pub open spec fn is_right(c: KeyCode) -> bool {
    c == KeyCode::Right || c == KeyCode::Char('l')
}

/// The screen that each menu entry opens.
pub open spec fn menu_screen(i: usize) -> DisplayMode {
    if i == 0 {
        DisplayMode::About
    } else if i == SKILLS_MENU_INDEX {
        DisplayMode::Skills
    } else if i == 2 {
        DisplayMode::Projects
    } else if i == TIMELINE_MENU_INDEX {
        DisplayMode::Timeline
    } else {
        DisplayMode::Contact
    }
}

/// Opens the screen of the selected menu entry, recording the screen left.
/// The timeline opens on its first entry, in the compact view.
pub open spec fn activated(s: NavigationState) -> NavigationState {
    if s.menu_index == TIMELINE_MENU_INDEX {
        NavigationState {
            previous_mode: s.display_mode,
            display_mode: DisplayMode::Timeline,
            timeline_index: 0,
            timeline_event_index: 0,
            timeline_detail_view: false,
            ..s
        }
    } else if s.menu_index <= LAST_MENU_INDEX {
        NavigationState {
            previous_mode: s.display_mode,
            display_mode: menu_screen(s.menu_index),
            ..s
        }
    } else {
        s
    }
}

pub open spec fn exited(s: NavigationState) -> NavigationState {
    NavigationState { should_exit: true, ..s }
}

pub open spec fn to_menu(s: NavigationState) -> NavigationState {
    NavigationState { previous_mode: s.display_mode, display_mode: DisplayMode::Menu, ..s }
}

pub open spec fn menu_step(s: NavigationState, c: KeyCode) -> NavigationState {
    if is_quit(c) || c == KeyCode::Esc {
        exited(s)
    } else if is_up(c) {
        if s.menu_index > 0 {
            NavigationState { menu_index: (s.menu_index - 1) as usize, ..s }
        } else {
            s
        }
    } else if is_down(c) {
        if s.menu_index < LAST_MENU_INDEX {
            NavigationState { menu_index: (s.menu_index + 1) as usize, ..s }
        } else {
            s
        }
    } else if c == KeyCode::Enter {
        activated(s)
    } else {
        s
    }
}

/// About, Skills, Projects and Contact: the arrows up and down work the menu
/// and open the entry they select.
pub open spec fn content_step(s: NavigationState, c: KeyCode, snap: SnapshotView) -> NavigationState {
    if is_quit(c) {
        exited(s)
    } else if is_back(c) {
        to_menu(s)
    } else if is_up(c) {
        if s.menu_index > 0 {
            activated(NavigationState { menu_index: (s.menu_index - 1) as usize, ..s })
        } else {
            s
        }
    } else if is_down(c) {
        if s.menu_index < LAST_MENU_INDEX {
            activated(NavigationState { menu_index: (s.menu_index + 1) as usize, ..s })
        } else {
            s
        }
    } else if is_right(c) {
        if s.display_mode == DisplayMode::Projects && snap.link_count > 0 {
            NavigationState {
                previous_mode: s.display_mode,
                display_mode: DisplayMode::ProjectLinks,
                link_index: 0,
                ..s
            }
        } else if s.display_mode == DisplayMode::Skills {
            NavigationState {
                previous_mode: s.display_mode,
                display_mode: DisplayMode::SkillsVisual,
                skill_category_index: 0,
                skills_page: 0,
                ..s
            }
        } else {
            s
        }
    } else if c == KeyCode::Enter {
        activated(s)
    } else {
        s
    }
}

/// The skills bars: left and right move between categories, up and down
/// between the pages of one category.
pub open spec fn skills_step(s: NavigationState, c: KeyCode, snap: SnapshotView) -> NavigationState {
    let count = snap.skill_counts.len();
    let pages = page_count(skills_in(snap, s.skill_category_index), snap.skills_page_size);
    if is_quit(c) {
        exited(s)
    } else if c == KeyCode::Esc {
        NavigationState {
            previous_mode: s.display_mode,
            display_mode: DisplayMode::Menu,
            menu_index: SKILLS_MENU_INDEX,
            skill_category_index: 0,
            skills_page: 0,
            ..s
        }
    } else if is_left(c) {
        if s.skill_category_index > 0 {
            NavigationState {
                skill_category_index: (s.skill_category_index - 1) as usize,
                skills_page: 0,
                ..s
            }
        } else {
            NavigationState { previous_mode: s.display_mode, display_mode: DisplayMode::Skills, ..s }
        }
    } else if is_right(c) {
        if count > 0 && s.skill_category_index < count - 1 {
            NavigationState {
                skill_category_index: (s.skill_category_index + 1) as usize,
                skills_page: 0,
                ..s
            }
        } else {
            s
        }
    } else if is_up(c) {
        if s.skills_page > 0 {
            NavigationState { skills_page: (s.skills_page - 1) as usize, ..s }
        } else {
            s
        }
    } else if is_down(c) {
        if pages > 0 && s.skills_page < pages - 1 {
            NavigationState { skills_page: (s.skills_page + 1) as usize, ..s }
        } else {
            s
        }
    } else {
        s
    }
}

/// The project links list; Enter asks for the selected link to be opened.
pub open spec fn links_step(s: NavigationState, c: KeyCode, snap: SnapshotView) -> (
    NavigationState,
    Option<usize>,
) {
    let count = snap.link_count;
    if is_quit(c) {
        (exited(s), None)
    } else if c == KeyCode::Esc || is_left(c) {
        (NavigationState { display_mode: DisplayMode::Projects, link_index: 0, ..s }, None)
    } else if is_up(c) {
        if s.link_index > 0 {
            (NavigationState { link_index: (s.link_index - 1) as usize, ..s }, None)
        } else {
            (s, None)
        }
    } else if is_down(c) {
        if count > 0 {
            let next = if s.link_index < count - 1 {
                (s.link_index + 1) as usize
            } else {
                (count - 1) as usize
            };
            (NavigationState { link_index: next, ..s }, None)
        } else {
            (s, None)
        }
    } else if c == KeyCode::Enter {
        if count > 0 {
            let i = if s.link_index < count - 1 {
                s.link_index
            } else {
                (count - 1) as usize
            };
            (s, Some(i))
        } else {
            (s, None)
        }
    } else {
        (s, None)
    }
}

/// Moves to the next timeline entry, if there is one.
pub open spec fn timeline_next(s: NavigationState, snap: SnapshotView) -> NavigationState {
    if snap.timeline_count > 0 && s.timeline_index < snap.timeline_count - 1 {
        NavigationState {
            timeline_index: (s.timeline_index + 1) as usize,
            timeline_event_index: (s.timeline_index + 1) as usize,
            ..s
        }
    } else {
        s
    }
}

pub open spec fn timeline_previous(s: NavigationState) -> NavigationState {
    NavigationState {
        timeline_index: (s.timeline_index - 1) as usize,
        timeline_event_index: (s.timeline_index - 1) as usize,
        ..s
    }
}

/// Leaves the timeline for the menu, with the Timeline entry selected.
pub open spec fn timeline_to_menu(s: NavigationState) -> NavigationState {
    NavigationState {
        previous_mode: s.display_mode,
        display_mode: DisplayMode::Menu,
        menu_index: TIMELINE_MENU_INDEX,
        timeline_detail_view: false,
        ..s
    }
}

/// The compact timeline: left and right move in time; left at the first entry
/// goes back to the menu.
pub open spec fn timeline_step(s: NavigationState, c: KeyCode, snap: SnapshotView) -> NavigationState {
    if is_quit(c) {
        exited(s)
    } else if is_back(c) {
        timeline_to_menu(s)
    } else if is_up(c) {
        if s.menu_index > 0 {
            activated(NavigationState { menu_index: (s.menu_index - 1) as usize, ..s })
        } else {
            s
        }
    } else if is_down(c) {
        if s.menu_index < LAST_MENU_INDEX {
            activated(NavigationState { menu_index: (s.menu_index + 1) as usize, ..s })
        } else {
            s
        }
    } else if is_left(c) {
        if s.timeline_index > 0 {
            timeline_previous(s)
        } else {
            timeline_to_menu(s)
        }
    } else if is_right(c) {
        timeline_next(s, snap)
    } else if c == KeyCode::Enter {
        if snap.timeline_count > 0 {
            NavigationState { timeline_detail_view: true, ..s }
        } else {
            s
        }
    } else {
        s
    }
}

/// The expanded view of one timeline entry: left at the first entry goes back
/// to the compact view.
pub open spec fn detail_step(s: NavigationState, c: KeyCode, snap: SnapshotView) -> NavigationState {
    if is_quit(c) {
        exited(s)
    } else if is_back(c) {
        NavigationState { timeline_detail_view: false, ..s }
    } else if is_left(c) {
        if s.timeline_index > 0 {
            timeline_previous(s)
        } else {
            NavigationState { timeline_detail_view: false, ..s }
        }
    } else if is_right(c) {
        timeline_next(s, snap)
    } else {
        s
    }
}

/// On the timeline, an entry index beyond the entries is put back to 0 before
/// a key is handled.
pub open spec fn healed(s: NavigationState, snap: SnapshotView) -> NavigationState {
    if s.display_mode == DisplayMode::Timeline && s.timeline_event_index >= snap.timeline_count {
        NavigationState { timeline_event_index: 0, ..s }
    } else {
        s
    }
}

/// How a key event changes the state, and which link, if any, it asks to
/// open. Events other than presses change nothing.
pub open spec fn key_step(s: NavigationState, key: KeyEvent, snap: SnapshotView) -> (
    NavigationState,
    Option<usize>,
) {
    if key.kind != KeyEventKind::Press {
        (s, None)
    } else {
        let h = healed(s, snap);
        let c = key.code;
        match h.display_mode {
            DisplayMode::Menu => (menu_step(h, c), None),
            DisplayMode::Timeline => if h.timeline_detail_view {
                (detail_step(h, c, snap), None)
            } else {
                (timeline_step(h, c, snap), None)
            },
            DisplayMode::SkillsVisual => (skills_step(h, c, snap), None),
            DisplayMode::ProjectLinks => links_step(h, c, snap),
            _ => (content_step(h, c, snap), None),
        }
    }
}

/// The state after a sequence of key events, handled in order.
pub open spec fn run_keys(s: NavigationState, keys: Seq<KeyEvent>, snap: SnapshotView) -> NavigationState
    decreases keys.len(),
{
    if keys.len() == 0 {
        s
    } else {
        run_keys(key_step(s, keys[0], snap).0, keys.drop_first(), snap)
    }
}

/// Number of pages that `n` items take, `size` to a page.
pub fn page_count_of(n: usize, size: usize) -> (r: usize)
    ensures
        r == page_count(n, size),
{
    if size == 0 {
        n
    } else if n % size == 0 {
        n / size
    } else {
        proof {
            vstd::arithmetic::div_mod::lemma_fundamental_div_mod(n as int, size as int);
            assert(n / size < n) by (nonlinear_arith)
                requires
                    n == size * (n / size) + n % size,
                    n % size > 0,
                    size >= 1,
                    n / size >= 0,
            ;
        }
        n / size + 1
    }
}

fn activate(s: &mut NavigationState)
    ensures
        *final(s) == activated(*old(s)),
{
    match s.menu_index {
        0 => {
            s.previous_mode = s.display_mode;
            s.display_mode = DisplayMode::About;
        },
        1 => {
            s.previous_mode = s.display_mode;
            s.display_mode = DisplayMode::Skills;
        },
        2 => {
            s.previous_mode = s.display_mode;
            s.display_mode = DisplayMode::Projects;
        },
        3 => {
            s.previous_mode = s.display_mode;
            s.display_mode = DisplayMode::Timeline;
            s.timeline_index = 0;
            s.timeline_event_index = 0;
            s.timeline_detail_view = false;
        },
        4 => {
            s.previous_mode = s.display_mode;
            s.display_mode = DisplayMode::Contact;
        },
        _ => {},
    }
}

fn handle_menu_keys(s: &mut NavigationState, c: KeyCode)
    ensures
        *final(s) == menu_step(*old(s), c),
{
    match c {
        KeyCode::Char('q') | KeyCode::Esc => {
            s.should_exit = true;
        },
        KeyCode::Up | KeyCode::Char('k') => {
            if s.menu_index > 0 {
                s.menu_index = s.menu_index - 1;
            }
        },
        KeyCode::Down | KeyCode::Char('j') => {
            if s.menu_index < LAST_MENU_INDEX {
                s.menu_index = s.menu_index + 1;
            }
        },
        KeyCode::Enter => activate(s),
        _ => {},
    }
}

fn handle_content_keys(s: &mut NavigationState, c: KeyCode, snap: &ContentSnapshot)
    ensures
        *final(s) == content_step(*old(s), c, snap@),
{
    match c {
        KeyCode::Char('q') => {
            s.should_exit = true;
        },
        KeyCode::Esc | KeyCode::Backspace => {
            s.previous_mode = s.display_mode;
            s.display_mode = DisplayMode::Menu;
        },
        KeyCode::Up | KeyCode::Char('k') => {
            if s.menu_index > 0 {
                s.menu_index = s.menu_index - 1;
                activate(s);
            }
        },
        KeyCode::Down | KeyCode::Char('j') => {
            if s.menu_index < LAST_MENU_INDEX {
                s.menu_index = s.menu_index + 1;
                activate(s);
            }
        },
        KeyCode::Right | KeyCode::Char('l') => {
            if s.display_mode == DisplayMode::Projects && snap.link_count > 0 {
                s.previous_mode = s.display_mode;
                s.display_mode = DisplayMode::ProjectLinks;
                s.link_index = 0;
            } else if s.display_mode == DisplayMode::Skills {
                s.previous_mode = s.display_mode;
                s.display_mode = DisplayMode::SkillsVisual;
                s.skill_category_index = 0;
                s.skills_page = 0;
            }
        },
        KeyCode::Enter => activate(s),
        _ => {},
    }
}

fn handle_skills_visual_keys(s: &mut NavigationState, c: KeyCode, snap: &ContentSnapshot)
    ensures
        *final(s) == skills_step(*old(s), c, snap@),
{
    let count = snap.skill_counts.len();
    let in_category = if s.skill_category_index < count {
        snap.skill_counts[s.skill_category_index]
    } else {
        0
    };
    let pages = page_count_of(in_category, snap.skills_page_size);
    match c {
        KeyCode::Char('q') => {
            s.should_exit = true;
        },
        KeyCode::Esc => {
            s.previous_mode = s.display_mode;
            s.display_mode = DisplayMode::Menu;
            s.menu_index = SKILLS_MENU_INDEX;
            s.skill_category_index = 0;
            s.skills_page = 0;
        },
        KeyCode::Left | KeyCode::Char('h') => {
            if s.skill_category_index > 0 {
                s.skill_category_index = s.skill_category_index - 1;
                s.skills_page = 0;
            } else {
                s.previous_mode = s.display_mode;
                s.display_mode = DisplayMode::Skills;
            }
        },
        KeyCode::Right | KeyCode::Char('l') => {
            if count > 0 && s.skill_category_index < count - 1 {
                s.skill_category_index = s.skill_category_index + 1;
                s.skills_page = 0;
            }
        },
        KeyCode::Up | KeyCode::Char('k') => {
            if s.skills_page > 0 {
                s.skills_page = s.skills_page - 1;
            }
        },
        KeyCode::Down | KeyCode::Char('j') => {
            if pages > 0 && s.skills_page < pages - 1 {
                s.skills_page = s.skills_page + 1;
            }
        },
        _ => {},
    }
}

fn handle_project_links_keys(s: &mut NavigationState, c: KeyCode, snap: &ContentSnapshot) -> (r:
    Option<usize>)
    ensures
        (*final(s), r) == links_step(*old(s), c, snap@),
{
    let count = snap.link_count;
    match c {
        KeyCode::Char('q') => {
            s.should_exit = true;
            None
        },
        KeyCode::Esc | KeyCode::Left | KeyCode::Char('h') => {
            s.display_mode = DisplayMode::Projects;
            s.link_index = 0;
            None
        },
        KeyCode::Up | KeyCode::Char('k') => {
            if s.link_index > 0 {
                s.link_index = s.link_index - 1;
            }
            None
        },
        KeyCode::Down | KeyCode::Char('j') => {
            if count > 0 {
                s.link_index = if s.link_index < count - 1 {
                    s.link_index + 1
                } else {
                    count - 1
                };
            }
            None
        },
        KeyCode::Enter => {
            if count > 0 {
                Some(
                    if s.link_index < count - 1 {
                        s.link_index
                    } else {
                        count - 1
                    },
                )
            } else {
                None
            }
        },
        _ => None,
    }
}

fn next_timeline_entry(s: &mut NavigationState, snap: &ContentSnapshot)
    ensures
        *final(s) == timeline_next(*old(s), snap@),
{
    if snap.timeline_count > 0 && s.timeline_index < snap.timeline_count - 1 {
        s.timeline_index = s.timeline_index + 1;
        s.timeline_event_index = s.timeline_index;
    }
}

fn timeline_back_to_menu(s: &mut NavigationState)
    ensures
        *final(s) == timeline_to_menu(*old(s)),
{
    s.previous_mode = s.display_mode;
    s.display_mode = DisplayMode::Menu;
    s.menu_index = TIMELINE_MENU_INDEX;
    s.timeline_detail_view = false;
}

fn handle_timeline_keys(s: &mut NavigationState, c: KeyCode, snap: &ContentSnapshot)
    ensures
        *final(s) == timeline_step(*old(s), c, snap@),
{
    match c {
        KeyCode::Char('q') => {
            s.should_exit = true;
        },
        KeyCode::Esc | KeyCode::Backspace => timeline_back_to_menu(s),
        KeyCode::Up | KeyCode::Char('k') => {
            if s.menu_index > 0 {
                s.menu_index = s.menu_index - 1;
                activate(s);
            }
        },
        KeyCode::Down | KeyCode::Char('j') => {
            if s.menu_index < LAST_MENU_INDEX {
                s.menu_index = s.menu_index + 1;
                activate(s);
            }
        },
        KeyCode::Left | KeyCode::Char('h') => {
            if s.timeline_index > 0 {
                s.timeline_index = s.timeline_index - 1;
                s.timeline_event_index = s.timeline_index;
            } else {
                timeline_back_to_menu(s);
            }
        },
        KeyCode::Right | KeyCode::Char('l') => next_timeline_entry(s, snap),
        KeyCode::Enter => {
            if snap.timeline_count > 0 {
                s.timeline_detail_view = true;
            }
        },
        _ => {},
    }
}

fn handle_timeline_detail_keys(s: &mut NavigationState, c: KeyCode, snap: &ContentSnapshot)
    ensures
        *final(s) == detail_step(*old(s), c, snap@),
{
    match c {
        KeyCode::Char('q') => {
            s.should_exit = true;
        },
        KeyCode::Esc | KeyCode::Backspace => {
            s.timeline_detail_view = false;
        },
        KeyCode::Left | KeyCode::Char('h') => {
            if s.timeline_index > 0 {
                s.timeline_index = s.timeline_index - 1;
                s.timeline_event_index = s.timeline_index;
            } else {
                s.timeline_detail_view = false;
            }
        },
        KeyCode::Right | KeyCode::Char('l') => next_timeline_entry(s, snap),
        _ => {},
    }
}

/// Handles one key event: returns the index of the link to open, if the event
/// asks for one. A selection that was within bounds stays within bounds, and
/// the link to open is one of the links.
pub fn handle_key(s: &mut NavigationState, key: KeyEvent, snap: &ContentSnapshot) -> (r: Option<
    usize,
>)
    ensures
        (*final(s), r) == key_step(*old(s), key, snap@),
        in_bounds(*old(s), snap@) ==> in_bounds(*final(s), snap@),
        r matches Some(i) ==> i < snap.link_count,
{
    proof {
        lemma_step_keeps_bounds(*old(s), key, snap@);
    }
    if key.kind != KeyEventKind::Press {
        return None;
    }
    if s.display_mode == DisplayMode::Timeline && s.timeline_event_index >= snap.timeline_count {
        s.timeline_event_index = 0;
    }
    match s.display_mode {
        DisplayMode::Menu => {
            handle_menu_keys(s, key.code);
            None
        },
        DisplayMode::Timeline => {
            if s.timeline_detail_view {
                handle_timeline_detail_keys(s, key.code, snap);
            } else {
                handle_timeline_keys(s, key.code, snap);
            }
            None
        },
        DisplayMode::SkillsVisual => {
            handle_skills_visual_keys(s, key.code, snap);
            None
        },
        DisplayMode::ProjectLinks => handle_project_links_keys(s, key.code, snap),
        _ => {
            handle_content_keys(s, key.code, snap);
            None
        },
    }
}

/// One key event keeps every selection within bounds, and a link to open is
/// one of the links.
pub proof fn lemma_step_keeps_bounds(s: NavigationState, key: KeyEvent, snap: SnapshotView)
    ensures
        in_bounds(s, snap) ==> in_bounds(key_step(s, key, snap).0, snap),
        key_step(s, key, snap).1 matches Some(i) ==> i < snap.link_count,
{
}

/// The session starts with every selection within bounds, whatever the content.
pub proof fn lemma_initial_in_bounds(snap: SnapshotView)
    ensures
        in_bounds(initial_navigation(), snap),
{
}

/// Whatever keys are pressed, and in whatever order, every selection stays
/// within the collection it selects from.
pub proof fn lemma_keys_keep_bounds(s: NavigationState, keys: Seq<KeyEvent>, snap: SnapshotView)
    requires
        in_bounds(s, snap),
    ensures
        in_bounds(run_keys(s, keys, snap), snap),
    decreases keys.len(),
{
    if keys.len() > 0 {
        lemma_step_keeps_bounds(s, keys[0], snap);
        lemma_keys_keep_bounds(key_step(s, keys[0], snap).0, keys.drop_first(), snap);
    }
}

/// Left (or `h`) at the first skill category, the first project link or the
/// first timeline entry never wraps: the selection stays at 0 and the screen
/// is left (for the expanded timeline entry, back to the compact view).
/// Elsewhere on these lists it moves back by one.
pub proof fn lemma_left_never_wraps(s: NavigationState, key: KeyEvent, snap: SnapshotView)
    requires
        key.kind == KeyEventKind::Press,
        is_left(key.code),
    ensures
        ({
            let r = key_step(s, key, snap).0;
            &&& s.display_mode == DisplayMode::SkillsVisual ==> if s.skill_category_index == 0 {
                r.skill_category_index == 0 && r.display_mode == DisplayMode::Skills
            } else {
                r.skill_category_index == s.skill_category_index - 1
                    && r.display_mode == DisplayMode::SkillsVisual
            }
            &&& s.display_mode == DisplayMode::ProjectLinks ==> r.link_index == 0
                && r.display_mode == DisplayMode::Projects
            &&& s.display_mode == DisplayMode::Timeline && !s.timeline_detail_view ==> if s.timeline_index
                == 0 {
                r.timeline_index == 0 && r.display_mode == DisplayMode::Menu && r.menu_index
                    == TIMELINE_MENU_INDEX
            } else {
                r.timeline_index == s.timeline_index - 1 && r.display_mode == DisplayMode::Timeline
            }
            &&& s.display_mode == DisplayMode::Timeline && s.timeline_detail_view ==> if s.timeline_index
                == 0 {
                r.timeline_index == 0 && r.display_mode == DisplayMode::Timeline
                    && !r.timeline_detail_view
            } else {
                r.timeline_index == s.timeline_index - 1 && r.timeline_detail_view
            }
        }),
{
}

/// A press of `code`.
pub open spec fn pressed(code: KeyCode) -> KeyEvent {
    KeyEvent { code, kind: KeyEventKind::Press }
}

/// `n` presses of `code`.
pub open spec fn presses(code: KeyCode, n: nat) -> Seq<KeyEvent> {
    Seq::new(n, |i: int| pressed(code))
}

/// Handling two sequences of keys one after the other is handling their
/// concatenation.
pub proof fn lemma_run_keys_concat(
    s: NavigationState,
    a: Seq<KeyEvent>,
    b: Seq<KeyEvent>,
    snap: SnapshotView,
)
    ensures
        run_keys(s, a + b, snap) == run_keys(run_keys(s, a, snap), b, snap),
    decreases a.len(),
{
    if a.len() > 0 {
        assert((a + b).drop_first() =~= a.drop_first() + b);
        assert((a + b)[0] == a[0]);
        lemma_run_keys_concat(key_step(s, a[0], snap).0, a.drop_first(), b, snap);
    } else {
        assert(a + b =~= b);
    }
}

proof fn lemma_menu_downs(s: NavigationState, n: nat, snap: SnapshotView)
    requires
        s.display_mode == DisplayMode::Menu,
        s.menu_index <= LAST_MENU_INDEX,
    ensures
        run_keys(s, presses(KeyCode::Down, n), snap) == (NavigationState {
            menu_index: if s.menu_index + n <= LAST_MENU_INDEX {
                (s.menu_index + n) as usize
            } else {
                LAST_MENU_INDEX
            },
            ..s
        }),
    decreases n,
{
    if n > 0 {
        let next = key_step(s, pressed(KeyCode::Down), snap).0;
        assert(presses(KeyCode::Down, n).drop_first() =~= presses(KeyCode::Down, (n - 1) as nat));
        lemma_menu_downs(next, (n - 1) as nat, snap);
    }
}

proof fn lemma_menu_ups(s: NavigationState, n: nat, snap: SnapshotView)
    requires
        s.display_mode == DisplayMode::Menu,
        s.menu_index <= LAST_MENU_INDEX,
    ensures
        run_keys(s, presses(KeyCode::Up, n), snap) == (NavigationState {
            menu_index: if s.menu_index >= n {
                (s.menu_index - n) as usize
            } else {
                0
            },
            ..s
        }),
    decreases n,
{
    if n > 0 {
        let next = key_step(s, pressed(KeyCode::Up), snap).0;
        assert(presses(KeyCode::Up, n).drop_first() =~= presses(KeyCode::Up, (n - 1) as nat));
        lemma_menu_ups(next, (n - 1) as nat, snap);
    }
}

/// On the menu, `n` presses of Down followed by `n` presses of Up bring the
/// selection back where it was, as far as the ends of the menu allow: the
/// selection ends at `min(m + n, last) - n`, or at 0 if that is negative, and
/// at `m` itself whenever `m + n` does not pass the last entry. The menu stays
/// shown and nothing else changes.
pub proof fn lemma_menu_round_trip(s: NavigationState, n: nat, snap: SnapshotView)
    requires
        s.display_mode == DisplayMode::Menu,
        s.menu_index <= LAST_MENU_INDEX,
    ensures
        ({
            let r = run_keys(s, presses(KeyCode::Down, n) + presses(KeyCode::Up, n), snap);
            let top = if s.menu_index + n <= LAST_MENU_INDEX {
                s.menu_index + n
            } else {
                LAST_MENU_INDEX as int
            };
            &&& r.menu_index == if top >= n {
                top - n
            } else {
                0
            }
            &&& s.menu_index + n <= LAST_MENU_INDEX ==> r.menu_index == s.menu_index
            &&& r == (NavigationState { menu_index: r.menu_index, ..s })
        }),
{
    lemma_run_keys_concat(s, presses(KeyCode::Down, n), presses(KeyCode::Up, n), snap);
    lemma_menu_downs(s, n, snap);
    let mid = run_keys(s, presses(KeyCode::Down, n), snap);
    lemma_menu_ups(mid, n, snap);
}

} // verus!
