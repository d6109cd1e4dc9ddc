use hire_david_parker::content::{section_content, Section};
use hire_david_parker::{about, contact, greeting, load_content, projects, skills, timeline, welcome};

fn read(text: &str) -> Option<String> {
    Some(String::from(text))
}

#[test]
fn test_greeting() {
    assert_eq!(greeting(), "Hello Warp, I am David Parker.");
}

#[test]
fn test_about_content() {
    let about_content = about(read("# About David Parker\n\nI would like to join the Warp team."));
    assert!(about_content.contains("About David Parker"));
    assert!(about_content.contains("Warp team"));
}

#[test]
fn test_skills_content() {
    let skills_content = skills(read("# Skills\n\n* Rust"));
    assert!(!skills_content.is_empty());
    assert!(!skills_content.contains("Error: Failed to load content from 'skills.md'"));
}

#[test]
fn test_projects_content() {
    let projects_content = projects(read("# Projects\n\n* [A](https://example.com)"));
    assert!(!projects_content.is_empty());
    assert!(!projects_content.contains("Error: Failed to load content from 'projects.md'"));
}

#[test]
fn test_welcome_content() {
    let welcome_content = welcome(read("# Welcome"));
    assert!(!welcome_content.is_empty());
    assert!(!welcome_content.contains("Error: Failed to load content from 'welcome.md'"));
}

#[test]
fn test_timeline_content() {
    let timeline_content = timeline(read("Use the arrow keys to move in time."));
    assert!(!timeline_content.is_empty());
    assert!(!timeline_content.contains("Error: Failed to load content from 'timeline.md'"));
}

#[test]
fn test_contact_content() {
    let contact_content = contact(read("# Contact"));
    assert!(!contact_content.is_empty());
    assert!(!contact_content.contains("Error: Failed to load content from 'contact.md'"));
}

#[test]
fn test_load_content_error_handling() {
    let content = load_content("nonexistent_file.md", None);
    assert!(content.contains("Error: Failed to load content from 'nonexistent_file.md'"));
}

#[test]
fn load_content_keeps_text_read() {
    assert_eq!(load_content("x.md", read("body")), "body");
}

#[test]
fn missing_sections_name_their_files() {
    assert_eq!(about(None), "Error: Failed to load content from 'about.md'");
    assert_eq!(skills(None), "Error: Failed to load content from 'skills.md'");
    assert_eq!(projects(None), "Error: Failed to load content from 'projects.md'");
    assert_eq!(welcome(None), "Error: Failed to load content from 'welcome.md'");
    assert_eq!(timeline(None), "Error: Failed to load content from 'timeline.md'");
    assert_eq!(contact(None), "Error: Failed to load content from 'contact.md'");
    assert_eq!(section_content(Section::Contact, None), contact(None));
}

#[test]
fn section_file_names() {
    assert_eq!(Section::About.file_name(), "about.md");
    assert_eq!(Section::Welcome.file_name(), "welcome.md");
    assert_eq!(Section::Contact.file_name(), "contact.md");
}
