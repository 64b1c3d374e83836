//! A visibility filter for a served directory tree: paths that contain a
//! dot-prefixed segment are hidden from open, listing and metadata
//! operations unless the filter is configured to show them.

pub mod laws;
pub mod listing;
pub mod path;
pub mod policy;
pub mod utf8;
