//! Bundles the text files of a directory tree into one artifact: a header
//! line with the path of each file, then its content.
//!
//! The library decides and renders; it does not touch the file system. A
//! caller walks the tree, reports each entry to a [`walker::Traversal`],
//! reads the files it is asked for, and writes what it is handed:
//!
//! - [`exclude`] compiles exclusion rules in gitignore syntax and answers
//!   for any path whether they leave it out;
//! - [`filter`] joins the rules with the check for hidden names;
//! - [`listing`] says which entries of a walk are bundled, given what the
//!   filter turns away;
//! - [`writer`] fixes the format of the bundle;
//! - [`walker`] is the engine that ties these together and keeps count.
//!
//! The remaining modules hold what surrounds a run: its options, the
//! failures it reports, and the text it shows.

pub mod animations;
pub mod args;
pub mod banner;
pub mod cli;
pub mod clipboard;
pub mod editor;
pub mod errors;
pub mod exclude;
pub mod filter;
pub mod formatter;
pub mod listing;
pub mod paths;
pub mod table;
pub mod text;
pub mod utils;
pub mod walker;
pub mod writer;
