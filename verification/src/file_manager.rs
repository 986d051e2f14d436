//! The command that shows a file in the platform's file manager.

use vstd::prelude::*;
use vstd::string::StringExecFns;
use crate::paths::parent_of;
use crate::paths::path_parent;
use crate::text::optional_text;
use crate::text::texts;

verus! {

/// A platform with a file manager of its own.
#[derive(Clone, Copy, Debug, PartialEq, Eq)]
pub enum Platform {
    MacOs,
    Windows,
    Linux,
    /// A platform for which no file manager is known.
    Other,
}

/// A program to start, with its arguments.
#[derive(Debug, PartialEq, Eq)]
pub struct RevealCommand {
    pub program: String,
    pub arguments: Vec<String>,
}

/// The program that shows files on `platform`.
pub open spec fn reveal_program(platform: Platform) -> Option<Seq<char>> {
    match platform {
        Platform::MacOs => Some("open"@),
        Platform::Windows => Some("explorer"@),
        Platform::Linux => Some("xdg-open"@),
        Platform::Other => None,
    }
}

/// The arguments with which that program shows `path`, whose parent
/// directory is `parent`. macOS and Windows select the file itself; Linux
/// opens the directory that holds it, and the root where the path has no
/// parent.
pub open spec fn reveal_arguments(platform: Platform, path: Seq<char>, parent: Option<Seq<char>>) -> Seq<
    Seq<char>,
> {
    match platform {
        Platform::MacOs => seq!["-R"@, path],
        Platform::Windows => seq!["/select,"@, path],
        Platform::Linux => seq![
            match parent {
                Some(directory) => directory,
                None => "/"@,
            },
        ],
        Platform::Other => Seq::empty(),
    }
}

/// The command that shows `path` on `platform`, given the parent directory
/// of `path`; `None` on a platform without a known file manager.
pub fn reveal_command_with_parent(platform: Platform, path: &str, parent: Option<String>) -> (r: Option<
    RevealCommand,
>)
    ensures
        match reveal_program(platform) {
            Some(program) => r matches Some(command) && command.program@ == program && texts(
                command.arguments@,
            ) == reveal_arguments(platform, path@, optional_text(parent)),
            None => r is None,
        },
{
    let mut arguments: Vec<String> = Vec::new();
    let program = match platform {
        Platform::MacOs => {
            arguments.push(String::from_str("-R"));
            arguments.push(String::from_str(path));
            String::from_str("open")
        },
        Platform::Windows => {
            arguments.push(String::from_str("/select,"));
            arguments.push(String::from_str(path));
            String::from_str("explorer")
        },
        Platform::Linux => {
            match parent {
                Some(directory) => arguments.push(directory),
                None => arguments.push(String::from_str("/")),
            }
            String::from_str("xdg-open")
        },
        Platform::Other => {
            return None;
        },
    };
    Some(RevealCommand { program, arguments })
}

/// The command that shows `path` on `platform`; `None` on a platform
/// without a known file manager.
pub fn reveal_command(platform: Platform, path: &str) -> (r: Option<RevealCommand>)
    ensures
        match reveal_program(platform) {
            Some(program) => r matches Some(command) && command.program@ == program && texts(
                command.arguments@,
            ) == reveal_arguments(platform, path@, path_parent(path@)),
            None => r is None,
        },
{
    let parent = match platform {
        Platform::Linux => parent_of(path),
        _ => None,
    };
    reveal_command_with_parent(platform, path, parent)
}

} // verus!
