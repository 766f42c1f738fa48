//! A package-identifier scheme and a single-shot download helper.
//!
//! A package descriptor is a four-field record (`name`, `version`, `author`,
//! `types`) with a canonical underscore-delimited textual encoding. This
//! library parses and produces that encoding, derives the download URL of a
//! package's archive from a descriptor and a base URL, and decides whether a
//! fetched response's status accepts the archive.

pub mod fetch;
pub mod package;
pub mod split;
pub mod urls;
