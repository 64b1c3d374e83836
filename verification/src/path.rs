//! The logical shape of a served path: a sequence of segments, each either a
//! structural marker (root, current directory, parent directory) or a normal
//! name given as raw bytes.

use vstd::prelude::*;

use crate::utf8::is_valid_utf8;
use crate::utf8::valid_utf8;

verus! {

/// One segment of a logical path. Only `Normal` segments carry a name and
/// can hide a path; the structural markers never do.
#[derive(Clone)]
pub enum Segment {
    /// The root marker (a leading `/`).
    Root,
    /// The current-directory marker (`.` as a whole segment).
    CurrentDir,
    /// The parent-directory marker (`..`).
    ParentDir,
    /// A normal name, as the raw bytes of the underlying OS string.
    Normal(Vec<u8>),
}

/// A location inside the served tree, independent of the host OS path
/// representation.
#[derive(Clone)]
pub struct LogicalPath {
    pub segments: Vec<Segment>,
}

/// A segment hides the paths it occurs in: it is a normal name whose bytes
/// are not valid text, or whose first byte is a dot. Structural markers
/// never hide.
pub open spec fn seg_hidden(seg: Segment) -> bool {
    match seg {
        Segment::Normal(name) => !valid_utf8(name@) || (name@.len() > 0 && name@[0] == 46u8),
        _ => false,
    }
}

/// A path is hidden as soon as one of its segments is.
pub open spec fn path_hidden(segs: Seq<Segment>) -> bool {
    exists|i: int| 0 <= i < segs.len() && seg_hidden(segs[i])
}

/// Decides `seg_hidden`.
pub fn segment_is_hidden(seg: &Segment) -> (b: bool)
    ensures
        b == seg_hidden(*seg),
{
    match seg {
        Segment::Normal(name) => {
            if !is_valid_utf8(name) {
                true
            } else {
                name.len() > 0 && name[0] == 46u8
            }
        },
        _ => false,
    }
}

impl LogicalPath {
    /// The empty path, with no segments.
    pub fn empty() -> (p: LogicalPath)
        ensures
            p.segments@ =~= Seq::<Segment>::empty(),
    {
        LogicalPath { segments: Vec::new() }
    }

    /// Appends one segment.
    pub fn push(&mut self, seg: Segment)
        ensures
            final(self).segments@ == old(self).segments@.push(seg),
    {
        self.segments.push(seg);
    }
}

/// Decides `path_hidden`: true exactly when some normal segment of `path`
/// either starts with a dot or cannot be read as text.
pub fn path_has_hidden_components(path: &LogicalPath) -> (b: bool)
    ensures
        b == path_hidden(path.segments@),
{
    let n = path.segments.len();
    let mut i: usize = 0;
    while i < n
        invariant
            i <= n,
            n == path.segments@.len(),
            forall|j: int| 0 <= j < i ==> !seg_hidden(path.segments@[j]),
        decreases n - i,
    {
        if segment_is_hidden(&path.segments[i]) {
            return true;
        }
        i = i + 1;
    }
    false
}

} // verus!
