//! The Git status policy.
//!
//! Git status is shown only in a build with Git support, and only when no
//! `no-git` flag is present: `no-git` overrides every request for Git
//! status, however often the request is repeated. In a build without Git
//! support the flags are accepted and have no effect.

use crate::bag::{BagView, FlagBag};
use crate::features::Features;
use crate::flags::Flag;
use vstd::prelude::*;

verus! {

/// What is shown of Git.
#[derive(Clone, Copy, Debug, PartialEq, Eq, Structural)]
pub struct GitPolicy {
    /// The status of each file.
    pub status: bool,
    /// The status of each repository root.
    pub repos: bool,
    /// The branch of each repository root, without its status.
    pub repos_no_status: bool,
}

impl GitPolicy {
    /// The policy that shows nothing of Git.
    pub open spec fn spec_disabled() -> GitPolicy {
        GitPolicy { status: false, repos: false, repos_no_status: false }
    }

    /// Whether the policy shows nothing of Git.
    pub open spec fn spec_is_disabled(self) -> bool {
        self == GitPolicy::spec_disabled()
    }

    /// Whether the policy shows nothing of Git.
    pub fn is_disabled(&self) -> (disabled: bool)
        ensures
            disabled == self.spec_is_disabled(),
    {
        !self.status && !self.repos && !self.repos_no_status
    }

    /// The Git policy of a bag in a build.
    pub open spec fn spec_deduce(bag: BagView, features: Features) -> GitPolicy {
        if !features.git || bag.has(Flag::NoGit) {
            GitPolicy::spec_disabled()
        } else {
            GitPolicy {
                status: bag.has(Flag::Git),
                repos: bag.has(Flag::GitRepos),
                repos_no_status: bag.has(Flag::GitReposNoStatus),
            }
        }
    }

    /// Resolves the Git policy. This never fails.
    pub fn deduce(bag: &FlagBag, features: Features) -> (policy: GitPolicy)
        ensures
            policy == GitPolicy::spec_deduce(bag@, features),
    {
        if !features.git || bag.has(Flag::NoGit) {
            GitPolicy { status: false, repos: false, repos_no_status: false }
        } else {
            GitPolicy {
                status: bag.has(Flag::Git),
                repos: bag.has(Flag::GitRepos),
                repos_no_status: bag.has(Flag::GitReposNoStatus),
            }
        }
    }
}

} // verus!
