//! A file-management engine: the state of a file browser (current directory,
//! cached listing, selection, clipboard, debounced search) and the decisions
//! behind listing, sizing, searching, copying, pasting, deleting and renaming.
//!
//! The engine never touches the disk itself. The caller reads the filesystem,
//! hands the engine plain records, performs the operations the engine plans,
//! and reports back what happened.
pub mod path;

pub use path::{FsPath, PathView};
pub mod size;
pub mod entry;
pub mod listing;
pub mod manager;
pub mod search;
pub mod operations;
