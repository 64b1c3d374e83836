//! The filtering policy itself: a `RestrictedFs` fixes a base location and a
//! `show_hidden` flag at construction, and each of the four filesystem
//! operations maps a path to a decision that the surrounding server code
//! carries out against the underlying provider.

use vstd::prelude::*;

use crate::path::LogicalPath;
use crate::path::Segment;
use crate::path::path_has_hidden_components;
use crate::path::path_hidden;

verus! {

/// The decision for open, metadata and symlink-metadata requests.
#[derive(Clone, Copy, Debug, PartialEq, Eq, Structural)]
pub enum Access {
    /// Forward the request to the underlying provider with identical
    /// arguments and return its result unchanged.
    Forward,
    /// Fail with a not-found error, without touching the provider.
    NotFound,
}

/// The decision for a directory-listing request.
#[derive(Clone, Copy, Debug, PartialEq, Eq, Structural)]
pub enum ListAccess {
    /// Forward the request and return the provider's entries unchanged.
    Forward,
    /// Forward the request, but drop every entry whose name starts with a
    /// dot, and every entry the provider fails to produce.
    FilterHidden,
    /// Fail with a not-found error, without touching the provider.
    NotFound,
}

/// What open, metadata and symlink-metadata decide: forward when the flag
/// shows hidden entries or the path has no hidden segment, otherwise deny.
pub open spec fn access_decision(show_hidden: bool, segs: Seq<Segment>) -> Access {
    if show_hidden || !path_hidden(segs) {
        Access::Forward
    } else {
        Access::NotFound
    }
}

/// What a listing decides: forward unchanged when the flag shows hidden
/// entries; filter the entries when the directory itself is visible; deny
/// when the directory's own path is hidden.
pub open spec fn list_decision(show_hidden: bool, segs: Seq<Segment>) -> ListAccess {
    if show_hidden {
        ListAccess::Forward
    } else if !path_hidden(segs) {
        ListAccess::FilterHidden
    } else {
        ListAccess::NotFound
    }
}

/// A filter over an underlying filesystem provider serving `base`: hides
/// every path that contains a dot-prefixed or unreadable normal segment,
/// unless `show_hidden` was set at construction.
#[derive(Clone)]
pub struct RestrictedFs {
    base: String,
    show_hidden: bool,
}

impl RestrictedFs {
    /// The base location handed to the underlying provider, unchanged.
    pub closed spec fn spec_base(&self) -> Seq<char> {
        self.base@
    }

    /// Whether hidden entries are shown, fixed at construction.
    pub closed spec fn spec_show_hidden(&self) -> bool {
        self.show_hidden
    }

    /// Creates a filter serving the tree rooted at `base`. If `show_hidden`
    /// is false, access to hidden files and directories is prevented.
    pub fn new(base: String, show_hidden: bool) -> (fs: RestrictedFs)
        ensures
            fs.spec_base() == base@,
            fs.spec_show_hidden() == show_hidden,
    {
        RestrictedFs { base, show_hidden }
    }

    /// The decision for `open(path, options)`.
    pub fn open_decision(&self, path: &LogicalPath) -> (a: Access)
        ensures
            a == access_decision(self.spec_show_hidden(), path.segments@),
    {
        self.access(path)
    }

    /// The decision for `metadata(path)`.
    pub fn metadata_decision(&self, path: &LogicalPath) -> (a: Access)
        ensures
            a == access_decision(self.spec_show_hidden(), path.segments@),
    {
        self.access(path)
    }

    /// The decision for `symlink_metadata(path)`, which does not follow a
    /// final symbolic link; the visibility rule is the same.
    pub fn symlink_metadata_decision(&self, path: &LogicalPath) -> (a: Access)
        ensures
            a == access_decision(self.spec_show_hidden(), path.segments@),
    {
        self.access(path)
    }

    /// The decision for `read_dir(path)`.
    pub fn read_dir_decision(&self, path: &LogicalPath) -> (a: ListAccess)
        ensures
            a == list_decision(self.spec_show_hidden(), path.segments@),
    {
        if self.show_hidden {
            ListAccess::Forward
        } else if !path_has_hidden_components(path) {
            ListAccess::FilterHidden
        } else {
            ListAccess::NotFound
        }
    }

    /// The shared open/metadata rule.
    fn access(&self, path: &LogicalPath) -> (a: Access)
        ensures
            a == access_decision(self.spec_show_hidden(), path.segments@),
    {
        if !path_has_hidden_components(path) || self.show_hidden {
            Access::Forward
        } else {
            Access::NotFound
        }
    }
}

} // verus!
