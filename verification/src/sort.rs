//! The sort field and the sort direction.

use crate::bag::{BagView, FlagBag};
use crate::error::{agrees, DeductionError, DeductionErrorView};
use crate::flags::Flag;
use crate::text::str_eq;
use vstd::prelude::*;

verus! {

/// What the entries are ordered by.
#[derive(Clone, Copy, Debug, PartialEq, Eq, Structural)]
pub enum SortField {
    /// The file name, ignoring case.
    Name,
    /// The file name, upper case before lower case.
    NameCaseSensitive,
    /// The extension, ignoring case.
    Extension,
    /// The extension, upper case before lower case.
    ExtensionCaseSensitive,
    /// The file size.
    Size,
    /// The file type.
    Type,
    /// The modification time.
    Modified,
    /// The access time.
    Accessed,
    /// The creation time.
    Created,
    /// The inode number.
    Inode,
    /// The order in which the entries were read.
    Unsorted,
}

impl SortField {
    /// The field that a word names, if it names one. `date`, `time`, `old`
    /// and `new` all name the modification time.
    pub open spec fn spec_parse(word: Seq<char>) -> Option<SortField> {
        if word == "name"@ {
            Some(SortField::Name)
        } else if word == "Name"@ {
            Some(SortField::NameCaseSensitive)
        } else if word == "extension"@ {
            Some(SortField::Extension)
        } else if word == "Extension"@ {
            Some(SortField::ExtensionCaseSensitive)
        } else if word == "size"@ {
            Some(SortField::Size)
        } else if word == "type"@ {
            Some(SortField::Type)
        } else if word == "modified"@ || word == "date"@ || word == "time"@ || word == "old"@
            || word == "new"@ {
            Some(SortField::Modified)
        } else if word == "accessed"@ {
            Some(SortField::Accessed)
        } else if word == "created"@ {
            Some(SortField::Created)
        } else if word == "inode"@ {
            Some(SortField::Inode)
        } else if word == "none"@ {
            Some(SortField::Unsorted)
        } else {
            None
        }
    }

    /// The field that a word names, if it names one.
    pub fn parse(word: &str) -> (field: Option<SortField>)
        ensures
            field == SortField::spec_parse(word@),
    {
        if str_eq(word, "name") {
            Some(SortField::Name)
        } else if str_eq(word, "Name") {
            Some(SortField::NameCaseSensitive)
        } else if str_eq(word, "extension") {
            Some(SortField::Extension)
        } else if str_eq(word, "Extension") {
            Some(SortField::ExtensionCaseSensitive)
        } else if str_eq(word, "size") {
            Some(SortField::Size)
        } else if str_eq(word, "type") {
            Some(SortField::Type)
        } else if str_eq(word, "modified") || str_eq(word, "date") || str_eq(word, "time")
            || str_eq(word, "old") || str_eq(word, "new") {
            Some(SortField::Modified)
        } else if str_eq(word, "accessed") {
            Some(SortField::Accessed)
        } else if str_eq(word, "created") {
            Some(SortField::Created)
        } else if str_eq(word, "inode") {
            Some(SortField::Inode)
        } else if str_eq(word, "none") {
            Some(SortField::Unsorted)
        } else {
            None
        }
    }

    /// The sort field of a bag, or the failure that prevents one.
    pub open spec fn spec_deduce(bag: BagView) -> Result<SortField, DeductionErrorView> {
        match bag.value(Flag::Sort) {
            None => Ok(SortField::Name),
            Some(word) => match SortField::spec_parse(word) {
                Some(field) => Ok(field),
                None => Err(DeductionErrorView::BadArgument { flag: Flag::Sort, given: word }),
            },
        }
    }

    /// Resolves the sort field.
    ///
    /// Without a value the entries are sorted by name. Fails exactly when
    /// `sort` came with a value that names no field.
    pub fn deduce(bag: &FlagBag) -> (outcome: Result<SortField, DeductionError>)
        ensures
            agrees(outcome, SortField::spec_deduce(bag@)),
    {
        match bag.value(Flag::Sort) {
            None => Ok(SortField::Name),
            Some(word) => match SortField::parse(word) {
                Some(field) => Ok(field),
                None => Err(DeductionError::bad_argument(Flag::Sort, word)),
            },
        }
    }
}

/// The direction in which the entries are ordered.
#[derive(Clone, Copy, Debug, PartialEq, Eq, Structural)]
pub enum SortDirection {
    /// Smallest first.
    Ascending,
    /// Largest first.
    Descending,
}

impl SortDirection {
    /// The sort direction of a bag.
    pub open spec fn spec_deduce(bag: BagView) -> SortDirection {
        if bag.has(Flag::Reverse) {
            SortDirection::Descending
        } else {
            SortDirection::Ascending
        }
    }

    /// Resolves the sort direction. This never fails.
    pub fn deduce(bag: &FlagBag) -> (direction: SortDirection)
        ensures
            direction == SortDirection::spec_deduce(bag@),
    {
        if bag.has(Flag::Reverse) {
            SortDirection::Descending
        } else {
            SortDirection::Ascending
        }
    }
}

} // verus!
