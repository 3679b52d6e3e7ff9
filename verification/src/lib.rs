//! A small directory-listing library.
//!
//! The library renders a bordered plain-text table for a list of directory
//! entries: a heading, a separator, and one row per entry, with optional
//! size, creation-time and modification-time columns.  Enumeration and all
//! other I/O stay outside; the library works on plain entry records and
//! returns the finished lines.

pub mod config;
pub mod entry;
pub mod laws;
pub mod render;
pub mod text;
pub mod timefmt;
