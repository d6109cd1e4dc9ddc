use crate::content::{content_text, section_content, section_file, Section};
use vstd::prelude::*;

verus! {

/// The subcommands of the program.
#[derive(Debug, Clone, Copy, PartialEq, Eq, Structural)]
pub enum Commands {
    /// Run the interactive application.
    Run,
    /// Print the about section and exit.
    About,
}

/// The parsed command line.
#[derive(Debug, Clone, Copy, PartialEq, Eq, Structural)]
pub struct Cli {
    pub command: Option<Commands>,
}

impl Cli {
    /// Whether the command line asks for the interactive application: `run`,
    /// or no subcommand at all.
    pub fn runs_tui(&self) -> (r: bool)
        ensures
            r == (self.command != Some(Commands::About)),
    {
        match self.command {
            Some(Commands::About) => false,
            _ => true,
        }
    }
}

/// The text to print for a command line: the about section for `about`
/// (given what reading its file gave), nothing otherwise.
pub fn process_args(cli: &Cli, about_read: Option<String>) -> (r: String)
    ensures
        cli.command == Some(Commands::About) ==> r@ == content_text(
            section_file(Section::About),
            about_read,
        ),
        cli.command != Some(Commands::About) ==> r@ == Seq::<char>::empty(),
{
    match cli.command {
        Some(Commands::About) => section_content(Section::About, about_read),
        _ => String::new(),
    }
}

} // verus!
