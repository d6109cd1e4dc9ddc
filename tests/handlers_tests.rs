use hire_david_parker::event::{Event, KeyCode, KeyEvent, KeyEventKind};
use hire_david_parker::models::{DisplayMode, Skill, SkillCategory, SkillsData};
use hire_david_parker::state::{App, Content};
use hire_david_parker::{ProjectLink, TimelineEvent};
use std::sync::mpsc;

fn create_key_event(code: KeyCode) -> KeyEvent {
    KeyEvent::new(code)
}

fn category(name: &str, n: usize) -> SkillCategory {
    let skills = (0..n).map(|i| Skill { name: format!("{} {}", name, i), level: 50 }).collect();
    SkillCategory { name: String::from(name), skills }
}

fn record(year: u32, title: &str) -> TimelineEvent {
    TimelineEvent {
        year,
        title: String::from(title),
        organization: String::from("Org"),
        description: String::from("Description"),
        highlights: vec![String::from("Highlight")],
        technologies: vec![String::from("Rust")],
    }
}

fn sample_app() -> App {
    App::new(Content {
        about_content: String::from("# About David Parker"),
        skills_content: String::from("# Skills"),
        projects_content: String::from(
            "# Projects\n\n* [One](https://one.example)\n* [Two](https://two.example)",
        ),
        welcome_content: String::from("# Welcome"),
        timeline_content: String::from("Career timeline"),
        contact_content: String::from("# Contact"),
        skills_data: SkillsData { categories: vec![category("Languages", 7), category("Tools", 2)] },
        project_links: vec![ProjectLink {
            text: String::from("One"),
            url: String::from("https://one.example"),
        }],
        timeline: vec![record(2021, "Second"), record(2019, "First"), record(2023, "Third")],
    })
}

#[test]
fn test_menu_key_handling() {
    let mut app = sample_app();
    app.nav.display_mode = DisplayMode::Menu;

    app.handle_key_event(create_key_event(KeyCode::Down));
    assert_eq!(app.nav.menu_index, 1);
    app.handle_key_event(create_key_event(KeyCode::Char('j')));
    assert_eq!(app.nav.menu_index, 2);

    app.handle_key_event(create_key_event(KeyCode::Up));
    assert_eq!(app.nav.menu_index, 1);
    app.handle_key_event(create_key_event(KeyCode::Char('k')));
    assert_eq!(app.nav.menu_index, 0);

    app.handle_key_event(create_key_event(KeyCode::Enter));
    assert_eq!(app.nav.display_mode, DisplayMode::About);

    app.nav.display_mode = DisplayMode::Menu;
    app.handle_key_event(create_key_event(KeyCode::Char('q')));
    assert!(app.nav.should_exit);

    app.nav.should_exit = false;
    app.handle_key_event(create_key_event(KeyCode::Esc));
    assert!(app.nav.should_exit);

    app.nav.should_exit = false;
    app.nav.menu_index = 0;
    app.handle_key_event(create_key_event(KeyCode::Up));
    assert_eq!(app.nav.menu_index, 0);

    app.nav.menu_index = 4;
    app.handle_key_event(create_key_event(KeyCode::Down));
    assert_eq!(app.nav.menu_index, 4);

    app.nav.menu_index = 1;
    app.handle_key_event(create_key_event(KeyCode::Enter));
    assert_eq!(app.nav.display_mode, DisplayMode::Skills);

    app.nav.display_mode = DisplayMode::Menu;
    app.nav.menu_index = 2;
    app.handle_key_event(create_key_event(KeyCode::Enter));
    assert_eq!(app.nav.display_mode, DisplayMode::Projects);

    app.nav.display_mode = DisplayMode::Menu;
    app.nav.menu_index = 3;
    app.handle_key_event(create_key_event(KeyCode::Enter));
    assert_eq!(app.nav.display_mode, DisplayMode::Timeline);
    assert_eq!(app.nav.timeline_index, 0);

    app.nav.display_mode = DisplayMode::Menu;
    app.nav.menu_index = 4;
    app.handle_key_event(create_key_event(KeyCode::Enter));
    assert_eq!(app.nav.display_mode, DisplayMode::Contact);
}

#[test]
fn test_content_navigation() {
    let mut app = sample_app();

    app.nav.display_mode = DisplayMode::About;
    app.handle_key_event(create_key_event(KeyCode::Esc));
    assert_eq!(app.nav.display_mode, DisplayMode::Menu);

    app.nav.display_mode = DisplayMode::About;
    app.handle_key_event(create_key_event(KeyCode::Backspace));
    assert_eq!(app.nav.display_mode, DisplayMode::Menu);

    app.nav.display_mode = DisplayMode::About;
    app.handle_key_event(create_key_event(KeyCode::Char('q')));
    assert!(app.nav.should_exit);

    app.nav.should_exit = false;
    app.nav.display_mode = DisplayMode::About;
    app.nav.menu_index = 1;
    app.handle_key_event(create_key_event(KeyCode::Up));
    assert_eq!(app.nav.menu_index, 0);

    app.nav.display_mode = DisplayMode::About;
    app.nav.menu_index = 0;
    app.handle_key_event(create_key_event(KeyCode::Down));
    assert_eq!(app.nav.menu_index, 1);

    app.nav.display_mode = DisplayMode::About;
    app.nav.menu_index = 1;
    app.handle_key_event(create_key_event(KeyCode::Enter));
    assert_eq!(app.nav.display_mode, DisplayMode::Skills);

    app.nav.display_mode = DisplayMode::Skills;
    app.handle_key_event(create_key_event(KeyCode::Right));
    assert_eq!(app.nav.display_mode, DisplayMode::SkillsVisual);

    app.handle_key_event(create_key_event(KeyCode::Esc));
    assert_eq!(app.nav.display_mode, DisplayMode::Menu);
    assert_eq!(app.nav.menu_index, 1);

    app.nav.display_mode = DisplayMode::Projects;
    app.handle_key_event(create_key_event(KeyCode::Right));
    assert_eq!(app.nav.display_mode, DisplayMode::ProjectLinks);

    app.handle_key_event(create_key_event(KeyCode::Esc));
    assert_eq!(app.nav.display_mode, DisplayMode::Projects);

    app.nav.display_mode = DisplayMode::About;
    app.nav.menu_index = 0;
    app.handle_key_event(create_key_event(KeyCode::Enter));
    assert_eq!(app.nav.display_mode, DisplayMode::About);

    app.nav.display_mode = DisplayMode::About;
    app.nav.menu_index = 2;
    app.handle_key_event(create_key_event(KeyCode::Enter));
    assert_eq!(app.nav.display_mode, DisplayMode::Projects);

    app.nav.display_mode = DisplayMode::About;
    app.nav.menu_index = 3;
    app.handle_key_event(create_key_event(KeyCode::Enter));
    assert_eq!(app.nav.display_mode, DisplayMode::Timeline);

    app.nav.display_mode = DisplayMode::About;
    app.nav.menu_index = 4;
    app.handle_key_event(create_key_event(KeyCode::Enter));
    assert_eq!(app.nav.display_mode, DisplayMode::Contact);
}

#[test]
fn test_skills_visual_navigation() {
    let mut app = sample_app();
    app.nav.display_mode = DisplayMode::SkillsVisual;
    app.nav.skill_category_index = 1;

    app.handle_key_event(create_key_event(KeyCode::Char('q')));
    assert!(app.nav.should_exit);

    app.nav.should_exit = false;
    app.nav.skill_category_index = 1;
    app.handle_key_event(create_key_event(KeyCode::Left));
    assert_eq!(app.nav.skill_category_index, 0);

    app.nav.display_mode = DisplayMode::SkillsVisual;
    app.nav.skill_category_index = 0;
    app.handle_key_event(create_key_event(KeyCode::Left));
    assert_eq!(app.nav.display_mode, DisplayMode::Skills);

    app.nav.display_mode = DisplayMode::SkillsVisual;
    app.nav.skill_category_index = 1;
    app.handle_key_event(create_key_event(KeyCode::Char('h')));
    assert_eq!(app.nav.skill_category_index, 0);

    if app.skills_data.categories.len() > 1 {
        app.nav.display_mode = DisplayMode::SkillsVisual;
        app.nav.skill_category_index = 0;
        app.handle_key_event(create_key_event(KeyCode::Right));
        assert_eq!(app.nav.skill_category_index, 1);

        app.nav.skill_category_index = 0;
        app.handle_key_event(create_key_event(KeyCode::Char('l')));
        assert_eq!(app.nav.skill_category_index, 1);
    }

    app.nav.display_mode = DisplayMode::SkillsVisual;
    app.nav.skill_category_index = app.skills_data.categories.len() - 1;
    app.handle_key_event(create_key_event(KeyCode::Right));
    assert_eq!(app.nav.skill_category_index, app.skills_data.categories.len() - 1);
}

#[test]
fn skills_pages_are_clamped() {
    let mut app = sample_app();
    app.nav.display_mode = DisplayMode::SkillsVisual;
    app.nav.skill_category_index = 0;
    app.nav.skills_page = 0;
    app.set_skills_page_size(3);
    for _ in 0..5 {
        app.handle_key_event(create_key_event(KeyCode::Down));
    }
    assert_eq!(app.nav.skills_page, 2);
    app.handle_key_event(create_key_event(KeyCode::Up));
    assert_eq!(app.nav.skills_page, 1);
    app.handle_key_event(create_key_event(KeyCode::Right));
    assert_eq!(app.nav.skill_category_index, 1);
    assert_eq!(app.nav.skills_page, 0);
    app.handle_key_event(create_key_event(KeyCode::Down));
    assert_eq!(app.nav.skills_page, 0);
    app.nav.skill_category_index = 0;
    app.nav.skills_page = 2;
    app.set_skills_page_size(7);
    assert_eq!(app.nav.skills_page, 0);
}

#[test]
fn test_project_links_navigation() {
    let mut app = sample_app();
    app.nav.display_mode = DisplayMode::ProjectLinks;
    app.nav.link_index = 0;

    app.handle_key_event(create_key_event(KeyCode::Char('q')));
    assert!(app.nav.should_exit);

    app.nav.should_exit = false;
    app.handle_key_event(create_key_event(KeyCode::Esc));
    assert_eq!(app.nav.display_mode, DisplayMode::Projects);

    app.nav.display_mode = DisplayMode::ProjectLinks;
    app.handle_key_event(create_key_event(KeyCode::Left));
    assert_eq!(app.nav.display_mode, DisplayMode::Projects);

    app.nav.display_mode = DisplayMode::ProjectLinks;
    app.handle_key_event(create_key_event(KeyCode::Char('h')));
    assert_eq!(app.nav.display_mode, DisplayMode::Projects);

    app.nav.display_mode = DisplayMode::ProjectLinks;
    app.nav.link_index = 1;
    app.handle_key_event(create_key_event(KeyCode::Up));
    assert_eq!(app.nav.link_index, 0);

    app.handle_key_event(create_key_event(KeyCode::Down));
    assert_eq!(app.nav.link_index, 1);

    app.nav.link_index = 1;
    app.handle_key_event(create_key_event(KeyCode::Char('k')));
    assert_eq!(app.nav.link_index, 0);

    app.handle_key_event(create_key_event(KeyCode::Char('j')));
    assert_eq!(app.nav.link_index, 1);

    app.nav.link_index = 0;
    app.handle_key_event(create_key_event(KeyCode::Up));
    assert_eq!(app.nav.link_index, 0);
}

#[test]
fn project_link_enter_opens_selected_url() {
    let mut app = sample_app();
    assert_eq!(app.links.len(), 2);
    app.nav.display_mode = DisplayMode::ProjectLinks;
    app.nav.link_index = 1;
    let opened = app.handle_key_event(create_key_event(KeyCode::Enter));
    assert_eq!(opened, Some(String::from("https://two.example")));
    app.handle_key_event(create_key_event(KeyCode::Down));
    assert_eq!(app.nav.link_index, 1);
    assert_eq!(app.nav.display_mode, DisplayMode::ProjectLinks);
}

#[test]
fn projects_without_links_stay_on_projects() {
    let mut app = sample_app();
    app.links.clear();
    app.nav.display_mode = DisplayMode::Projects;
    app.handle_key_event(create_key_event(KeyCode::Right));
    assert_eq!(app.nav.display_mode, DisplayMode::Projects);
}

#[test]
fn test_timeline_navigation() {
    let mut app = sample_app();
    assert!(!app.timeline_events.is_empty());
    app.nav.display_mode = DisplayMode::Timeline;

    app.handle_key_event(create_key_event(KeyCode::Char('q')));
    assert!(app.nav.should_exit);

    app.nav.should_exit = false;
    app.handle_key_event(create_key_event(KeyCode::Esc));
    assert_eq!(app.nav.display_mode, DisplayMode::Menu);

    app.nav.display_mode = DisplayMode::Timeline;
    app.nav.timeline_index = 1;
    app.handle_key_event(create_key_event(KeyCode::Left));
    assert_eq!(app.nav.timeline_index, 0);

    app.nav.timeline_index = 1;
    app.handle_key_event(create_key_event(KeyCode::Char('h')));
    assert_eq!(app.nav.timeline_index, 0);

    app.nav.timeline_index = 0;
    app.handle_key_event(create_key_event(KeyCode::Left));
    assert_eq!(app.nav.display_mode, DisplayMode::Menu);
    assert_eq!(app.nav.menu_index, 3);

    app.nav.display_mode = DisplayMode::Timeline;
    app.nav.timeline_index = 0;
    app.handle_key_event(create_key_event(KeyCode::Right));
    assert_eq!(app.nav.timeline_index, 1);

    app.nav.timeline_index = 0;
    app.handle_key_event(create_key_event(KeyCode::Char('l')));
    assert_eq!(app.nav.timeline_index, 1);

    if app.timeline_events.len() > 1 {
        app.nav.timeline_index = app.timeline_events.len() - 1;
        app.handle_key_event(create_key_event(KeyCode::Right));
        assert_eq!(app.nav.timeline_index, app.timeline_events.len() - 1);
    }

    app.nav.timeline_index = 0;
    app.handle_key_event(create_key_event(KeyCode::Enter));
    assert!(app.nav.timeline_detail_view);
}

#[test]
fn test_timeline_detail_navigation() {
    let mut app = sample_app();
    assert!(!app.timeline_events.is_empty());
    app.nav.display_mode = DisplayMode::Timeline;
    app.nav.timeline_detail_view = true;
    app.nav.timeline_index = 1;

    app.handle_key_event(create_key_event(KeyCode::Char('q')));
    assert!(app.nav.should_exit);

    app.nav.should_exit = false;
    app.nav.timeline_detail_view = true;
    app.handle_key_event(create_key_event(KeyCode::Esc));
    assert!(!app.nav.timeline_detail_view);

    app.nav.timeline_detail_view = true;
    app.handle_key_event(create_key_event(KeyCode::Backspace));
    assert!(!app.nav.timeline_detail_view);

    app.nav.timeline_detail_view = true;
    app.nav.timeline_index = 1;
    app.handle_key_event(create_key_event(KeyCode::Left));
    assert_eq!(app.nav.timeline_index, 0);
    assert_eq!(app.nav.timeline_event_index, 0);

    app.nav.timeline_detail_view = true;
    app.nav.timeline_index = 1;
    app.handle_key_event(create_key_event(KeyCode::Char('h')));
    assert_eq!(app.nav.timeline_index, 0);
    assert_eq!(app.nav.timeline_event_index, 0);

    app.nav.timeline_detail_view = true;
    app.nav.timeline_index = 0;
    app.handle_key_event(create_key_event(KeyCode::Left));
    assert!(!app.nav.timeline_detail_view);
    assert_eq!(app.nav.display_mode, DisplayMode::Timeline);

    app.nav.timeline_detail_view = true;
    app.nav.timeline_index = 0;
    app.handle_key_event(create_key_event(KeyCode::Right));
    assert_eq!(app.nav.timeline_index, 1);
    assert_eq!(app.nav.timeline_event_index, 1);

    app.nav.timeline_detail_view = true;
    app.nav.timeline_index = 0;
    app.handle_key_event(create_key_event(KeyCode::Char('l')));
    assert_eq!(app.nav.timeline_index, 1);
    assert_eq!(app.nav.timeline_event_index, 1);

    if app.timeline_events.len() > 1 {
        app.nav.timeline_detail_view = true;
        app.nav.timeline_index = app.timeline_events.len() - 1;
        app.handle_key_event(create_key_event(KeyCode::Right));
        assert_eq!(app.nav.timeline_index, app.timeline_events.len() - 1);
    }

    app.nav.timeline_detail_view = true;
    let original_index = app.nav.timeline_index;
    app.handle_key_event(create_key_event(KeyCode::Char('x')));
    assert_eq!(app.nav.timeline_index, original_index);
    assert!(app.nav.timeline_detail_view);
}

#[test]
fn test_non_press_key_events_are_ignored() {
    let mut app = sample_app();
    let release_event = KeyEvent { code: KeyCode::Char('q'), kind: KeyEventKind::Release };
    app.handle_key_event(release_event);
    assert!(!app.nav.should_exit);
}

#[test]
fn test_handle_key_event_timeline_index_reset() {
    let mut app = sample_app();
    app.nav.display_mode = DisplayMode::Timeline;
    let events_count = app.timeline_events.len();
    assert!(events_count > 0, "Test requires at least one timeline event");
    app.nav.timeline_event_index = events_count;
    app.handle_key_event(create_key_event(KeyCode::Char('a')));
    assert!(app.nav.timeline_event_index < events_count);
}

#[test]
fn scenario_about_and_back_to_menu() {
    let mut app = sample_app();
    assert_eq!(app.nav.display_mode, DisplayMode::Menu);
    assert_eq!(app.nav.menu_index, 0);
    app.handle_key_event(create_key_event(KeyCode::Enter));
    assert_eq!(app.nav.display_mode, DisplayMode::About);
    let before = app.nav;
    app.handle_key_event(create_key_event(KeyCode::Right));
    assert_eq!(app.nav, before);
    app.handle_key_event(create_key_event(KeyCode::Esc));
    assert_eq!(app.nav.display_mode, DisplayMode::Menu);
    assert_eq!(app.nav.previous_mode, DisplayMode::About);
}

#[test]
fn menu_round_trip_returns_to_start() {
    let mut app = sample_app();
    app.nav.menu_index = 1;
    for _ in 0..3 {
        app.handle_key_event(create_key_event(KeyCode::Down));
    }
    for _ in 0..3 {
        app.handle_key_event(create_key_event(KeyCode::Up));
    }
    assert_eq!(app.nav.menu_index, 1);
    assert_eq!(app.nav.display_mode, DisplayMode::Menu);
    for _ in 0..6 {
        app.handle_key_event(create_key_event(KeyCode::Down));
    }
    for _ in 0..6 {
        app.handle_key_event(create_key_event(KeyCode::Up));
    }
    assert_eq!(app.nav.menu_index, 0);
}

#[test]
fn left_at_first_entries_never_wraps() {
    let mut app = sample_app();
    app.nav.display_mode = DisplayMode::SkillsVisual;
    app.nav.skill_category_index = 0;
    app.handle_key_event(create_key_event(KeyCode::Left));
    assert_eq!(app.nav.skill_category_index, 0);
    assert_eq!(app.nav.display_mode, DisplayMode::Skills);

    app.nav.display_mode = DisplayMode::ProjectLinks;
    app.nav.link_index = 0;
    app.handle_key_event(create_key_event(KeyCode::Char('h')));
    assert_eq!(app.nav.link_index, 0);
    assert_eq!(app.nav.display_mode, DisplayMode::Projects);

    app.nav.display_mode = DisplayMode::Timeline;
    app.nav.timeline_index = 0;
    app.handle_key_event(create_key_event(KeyCode::Left));
    assert_eq!(app.nav.timeline_index, 0);
    assert_eq!(app.nav.display_mode, DisplayMode::Menu);
}

#[test]
fn keys_keep_indices_in_bounds() {
    let mut app = sample_app();
    let codes = [
        KeyCode::Enter,
        KeyCode::Down,
        KeyCode::Right,
        KeyCode::Right,
        KeyCode::Right,
        KeyCode::Down,
        KeyCode::Down,
        KeyCode::Down,
        KeyCode::Esc,
        KeyCode::Down,
        KeyCode::Enter,
        KeyCode::Right,
        KeyCode::Down,
        KeyCode::Down,
        KeyCode::Down,
        KeyCode::Left,
        KeyCode::Left,
        KeyCode::Down,
        KeyCode::Right,
        KeyCode::Right,
        KeyCode::Right,
        KeyCode::Right,
        KeyCode::Enter,
        KeyCode::Right,
        KeyCode::Left,
    ];
    for code in codes {
        app.handle_key_event(create_key_event(code));
        let n = &app.nav;
        assert!(n.menu_index <= 4);
        assert!(n.link_index < app.links.len());
        assert!(n.skill_category_index < app.skills_data.categories.len());
        assert!(n.timeline_index < app.timeline_events.len());
        assert!(n.timeline_event_index < app.timeline_events.len());
    }
}

#[test]
fn test_event_handling_with_app() {
    let (sender, receiver) = mpsc::channel();
    let mut app = sample_app();
    let key_event = KeyEvent::new(KeyCode::Char('q'));
    sender.send(Event::Key(key_event)).unwrap();
    let received = receiver.recv().unwrap();
    match received {
        Event::Key(k) => {
            assert_eq!(k.code, KeyCode::Char('q'));
            app.handle_event(Event::Key(k));
            assert!(app.nav.should_exit);
        }
        _ => panic!("Expected Key event"),
    }
}

#[test]
fn ticks_and_resizes_change_nothing() {
    let mut app = sample_app();
    let before = app.nav;
    assert_eq!(app.handle_event(Event::Tick), None);
    assert_eq!(app.handle_event(Event::Resize(80, 24)), None);
    assert_eq!(app.nav, before);
}

#[test]
fn test_runner_loop_exit_condition() {
    let mut app = sample_app();
    app.nav.should_exit = true;
    assert!(app.nav.should_exit);
}

#[test]
fn test_event_enum_debug() {
    let tick_event = Event::Tick;
    let key_event = Event::Key(KeyEvent::new(KeyCode::Enter));
    let resize_event = Event::Resize(80, 24);
    assert_eq!(format!("{:?}", tick_event), "Tick");
    assert!(format!("{:?}", key_event).contains("Key"));
    assert_eq!(format!("{:?}", resize_event), "Resize(80, 24)");
}

#[test]
fn test_event_clone() {
    let resize_event = Event::Resize(80, 24);
    let cloned_event = resize_event.clone();
    assert_eq!(format!("{:?}", resize_event), format!("{:?}", cloned_event));
}
