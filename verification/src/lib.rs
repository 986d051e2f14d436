//! The decisions of a small desktop text editor, apart from the host that
//! shows its windows and from the file system.
//!
//! The editor exports its text to files in a directory that the user
//! chooses, under names that never collide with a name in that directory;
//! it opens one window at a time and remembers where the last one stood;
//! and it exits only when the user chose "Quit". Each of these rules is a
//! function here, with a contract that says what it returns.
//!
//! - `export`: the export directory and the start of a save.
//! - `names`: stem, extension and numbered variants of a file name, and what
//!   the first free one is.
//! - `probe`: the search for a free name, step by step or against a listing.
//! - `window`: window labels, geometry, and which windows stay open.
//! - `lifecycle`: what follows from each event of the host, and when the
//!   application may exit.
//! - `file_manager`: the command that shows a file in the file manager.
//! - `paths`: what the standard library says of a path.
//! - `decimal`, `text`: decimal notation and comparison of strings.

pub mod decimal;
pub mod export;
pub mod file_manager;
pub mod lifecycle;
pub mod names;
pub mod paths;
pub mod probe;
pub mod text;
pub mod window;

pub use export::ExportDirectory;
pub use lifecycle::ExitState;
pub use probe::get_unique_filename;
