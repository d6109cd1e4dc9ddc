//! An interactive terminal résumé: a navigation state machine over a fixed set
//! of sections and a renderer from markdown to styled, navigable lines.

pub mod cli;
pub mod cmark;
pub mod content;
pub mod event;
pub mod handlers;
pub mod layout;
pub mod markdown;
pub mod models;
pub mod state;

pub use cli::process_args;
pub use content::{
    about, contact, greeting, load_content, projects, skills, timeline, welcome, ProjectLink,
    ProjectLinks, TimelineEvent,
};
