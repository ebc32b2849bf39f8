//! Which entries are listed.

use crate::bag::{BagView, FlagBag};
use crate::features::Features;
use crate::flags::Flag;
use crate::text::{spec_split, split, texts};
use vstd::prelude::*;

verus! {

/// What becomes of hidden files.
#[derive(Clone, Copy, Debug, PartialEq, Eq, Structural)]
pub enum HiddenFiles {
    /// Hidden files are left out.
    Excluded,
    /// Hidden files are listed.
    Included,
    /// Hidden files are listed, and so are the `.` and `..` entries.
    IncludedWithDots,
}

impl HiddenFiles {
    /// The policy for a given number of `all` flags, with or without
    /// `almost-all`.
    pub open spec fn spec_of_counts(all: nat, almost_all: bool) -> HiddenFiles {
        if all >= 2 {
            HiddenFiles::IncludedWithDots
        } else if all == 1 || almost_all {
            HiddenFiles::Included
        } else {
            HiddenFiles::Excluded
        }
    }

    /// The hidden-file policy of a bag.
    pub open spec fn spec_deduce(bag: BagView) -> HiddenFiles {
        HiddenFiles::spec_of_counts(bag.count(Flag::All), bag.has(Flag::AlmostAll))
    }

    /// Resolves the hidden-file policy. This never fails.
    ///
    /// `all` once lists hidden files; twice or more it also lists the `.`
    /// and `..` entries. `almost-all` lists hidden files and never more.
    pub fn deduce(bag: &FlagBag) -> (policy: HiddenFiles)
        ensures
            policy == HiddenFiles::spec_deduce(bag@),
    {
        let all = bag.count(Flag::All);
        if all >= 2 {
            HiddenFiles::IncludedWithDots
        } else if all == 1 || bag.has(Flag::AlmostAll) {
            HiddenFiles::Included
        } else {
            HiddenFiles::Excluded
        }
    }
}

/// Which entries are listed.
#[derive(Debug, PartialEq, Eq)]
pub struct Filter {
    /// What becomes of hidden files.
    pub hidden: HiddenFiles,
    /// Only directories are listed.
    pub only_dirs: bool,
    /// Only files are listed.
    pub only_files: bool,
    /// Files that Git ignores are left out.
    pub git_ignore: bool,
    /// Glob patterns of files that are left out.
    pub ignore_globs: Vec<String>,
}

/// The mathematical value of a [`Filter`].
pub struct FilterView {
    pub hidden: HiddenFiles,
    pub only_dirs: bool,
    pub only_files: bool,
    pub git_ignore: bool,
    pub ignore_globs: Seq<Seq<char>>,
}

impl View for Filter {
    type V = FilterView;

    open spec fn view(&self) -> FilterView {
        FilterView {
            hidden: self.hidden,
            only_dirs: self.only_dirs,
            only_files: self.only_files,
            git_ignore: self.git_ignore,
            ignore_globs: texts(self.ignore_globs@),
        }
    }
}

impl Filter {
    /// The glob patterns of a bag: the pieces of the value of `ignore-glob`
    /// between its `|` characters, none without a value.
    pub open spec fn spec_ignore_globs(bag: BagView) -> Seq<Seq<char>> {
        match bag.value(Flag::IgnoreGlob) {
            Some(patterns) => spec_split(patterns, '|'),
            None => Seq::empty(),
        }
    }

    /// The filter of a bag in a build.
    pub open spec fn spec_deduce(bag: BagView, features: Features) -> FilterView {
        FilterView {
            hidden: HiddenFiles::spec_deduce(bag),
            only_dirs: bag.has(Flag::OnlyDirs),
            only_files: bag.has(Flag::OnlyFiles),
            git_ignore: features.git && bag.has(Flag::GitIgnore),
            ignore_globs: Filter::spec_ignore_globs(bag),
        }
    }

    /// Resolves the filter. This never fails.
    ///
    /// In a build without Git support `git-ignore` is accepted and has no
    /// effect.
    pub fn deduce(bag: &FlagBag, features: Features) -> (filter: Filter)
        ensures
            filter@ == Filter::spec_deduce(bag@, features),
    {
        let ignore_globs = match bag.value(Flag::IgnoreGlob) {
            Some(patterns) => split(patterns, '|'),
            None => {
                let none: Vec<String> = Vec::new();
                assert(texts(none@) =~= Seq::<Seq<char>>::empty());
                none
            },
        };
        Filter {
            hidden: HiddenFiles::deduce(bag),
            only_dirs: bag.has(Flag::OnlyDirs),
            only_files: bag.has(Flag::OnlyFiles),
            git_ignore: features.git && bag.has(Flag::GitIgnore),
            ignore_globs,
        }
    }
}

} // verus!
