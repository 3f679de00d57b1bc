//! The immutable configuration carried through one run.

use vstd::prelude::*;

verus! {

/// Which kind of link replaces a redundant copy.
///
/// A hard link is a second directory entry for the same underlying data and
/// requires source and target on one volume; a soft link is a path
/// reference resolved at access time.
#[derive(Clone, Copy, PartialEq, Eq, Structural, Debug)]
pub enum LinkKind {
    Hard,
    Soft,
}

/// Policy for one run: whether any filesystem mutation may happen at all,
/// and which kind of link to create.  Nothing mutates this after
/// construction.
#[derive(Clone, Copy, PartialEq, Eq, Structural, Debug)]
pub struct LinkPolicy {
    /// `false` is dry-run: detection only, fully side-effect-free.
    pub destructive: bool,
    pub link_kind: LinkKind,
}

} // verus!
