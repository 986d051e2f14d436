//! The directory that exported files are written to.

use vstd::prelude::*;
use vstd::string::StringExecFns;
use crate::paths::path_file_name;
use crate::probe::no_file_name_message;
use crate::probe::NameProbe;
use crate::probe::ProbeView;
use crate::text::optional_text;

verus! {

/// The message for a save that comes before any choice of directory.
pub open spec fn no_directory_message() -> Seq<char> {
    "No export directory selected"@
}

/// The message for an unset directory where the user has no documents
/// directory either.
pub open spec fn no_default_message() -> Seq<char> {
    "Unable to determine default export directory"@
}

/// The directory offered where the user has no documents directory.
pub open spec fn fallback_directory() -> Seq<char> {
    "/tmp"@
}

/// The export directory that the user chose, if any.
#[derive(Debug)]
pub struct ExportDirectory {
    path: Option<String>,
}

impl View for ExportDirectory {
    type V = Option<Seq<char>>;

    closed spec fn view(&self) -> Option<Seq<char>> {
        optional_text(self.path)
    }
}

impl Default for ExportDirectory {
    fn default() -> (r: ExportDirectory)
        ensures
            r@ is None,
    {
        ExportDirectory { path: None }
    }
}

impl ExportDirectory {
    /// A state in which no directory is chosen.
    pub fn new() -> (r: ExportDirectory)
        ensures
            r@ is None,
    {
        ExportDirectory { path: None }
    }

    /// Makes `path` the export directory.
    pub fn set(&mut self, path: String)
        ensures
            final(self)@ == Some(path@),
    {
        self.path = Some(path);
    }

    /// Whether a directory is chosen.
    pub fn is_set(&self) -> (r: bool)
        ensures
            r == (self@ is Some),
    {
        self.path.is_some()
    }

    /// The directory chosen, if any.
    pub fn get(&self) -> (r: Option<String>)
        ensures
            optional_text(r) == self@,
    {
        match &self.path {
            Some(path) => Some(path.clone()),
            None => None,
        }
    }
}

/// Offers an export directory, given the user's documents directory: that
/// directory, or the fallback where there is none. Never fails.
pub fn select_export_directory(documents: Option<String>) -> (r: Result<Option<String>, String>)
    ensures
        match documents {
            Some(dir) => r matches Ok(Some(offered)) && offered@ == dir@,
            None => r matches Ok(Some(offered)) && offered@ == fallback_directory(),
        },
{
    match documents {
        Some(dir) => Ok(Some(dir)),
        None => Ok(Some(String::from_str("/tmp"))),
    }
}

/// Makes `path` the export directory. Never fails.
pub fn set_export_directory(export_dir: &mut ExportDirectory, path: String) -> (r: Result<
    (),
    String,
>)
    ensures
        r is Ok,
        final(export_dir)@ == Some(path@),
{
    export_dir.set(path);
    Ok(())
}

/// The export directory in force, given the user's documents directory: the
/// directory chosen, else the documents directory, else an error. The
/// documents directory counts only where `export_dir.is_set()` is false.
pub fn get_export_directory(export_dir: &ExportDirectory, documents: Option<String>) -> (r: Result<
    String,
    String,
>)
    ensures
        match (export_dir@, documents) {
            (Some(path), _) => r matches Ok(p) && p@ == path,
            (None, Some(dir)) => r matches Ok(p) && p@ == dir@,
            (None, None) => r matches Err(message) && message@ == no_default_message(),
        },
{
    match export_dir.get() {
        Some(path) => Ok(path),
        None => match documents {
            Some(dir) => Ok(dir),
            None => Err(String::from_str("Unable to determine default export directory")),
        },
    }
}

/// Prepares a save of `filename`: the directory to write to, and the search
/// for a free name in it. Fails where no directory is chosen, and then
/// where `filename` has no final component.
pub fn begin_save(export_dir: &ExportDirectory, filename: &str) -> (r: Result<
    (String, NameProbe),
    String,
>)
    ensures
        match (export_dir@, path_file_name(filename@)) {
            (None, _) => r matches Err(message) && message@ == no_directory_message(),
            (Some(_), None) => r matches Err(message) && message@ == no_file_name_message(),
            (Some(path), Some(name)) => r matches Ok(plan) && plan.0@ == path && plan.1@ == (
            ProbeView { name, attempt: 0 }),
        },
{
    match export_dir.get() {
        None => Err(String::from_str("No export directory selected")),
        Some(path) => match NameProbe::start(filename) {
            Ok(probe) => Ok((path, probe)),
            Err(message) => Err(message),
        },
    }
}

} // verus!
