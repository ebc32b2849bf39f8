//! The optional subsystems that a build of the tool may or may not contain.

use vstd::prelude::*;

verus! {

/// Which optional subsystems exist in this build.
///
/// The descriptor is fixed for the lifetime of one invocation; every
/// resolution function takes it by value and none changes it.
#[derive(Clone, Copy, Debug, PartialEq, Eq, Structural)]
pub struct Features {
    /// Version-control integration is present.
    pub git: bool,
    /// Extended-attribute support is present.
    pub xattr: bool,
}

impl Features {
    /// A descriptor with the two subsystems as given.
    pub fn new(git: bool, xattr: bool) -> (f: Features)
        ensures
            f.git == git,
            f.xattr == xattr,
    {
        Features { git, xattr }
    }
}

} // verus!
