//! The columns of the long view and the timestamp that they show.
//!
//! A flag that suppresses a field wins over anything that asks for it.
//! Columns that need extended-attribute support are never shown in a build
//! without it; the flags are accepted and have no effect.
//!
//! Of the timestamps the modification time is preferred to the creation
//! time, the creation time to the access time, and the access time to the
//! change time, in whatever order the flags were given. The value of `time`
//! is one of `modified`, `accessed` and `created`, and asks for that
//! timestamp as its flag does.

use crate::bag::{BagView, FlagBag};
use crate::error::{agrees, DeductionError, DeductionErrorView};
use crate::features::Features;
use crate::flags::Flag;
use crate::text::str_eq;
use vstd::prelude::*;

verus! {

/// Which timestamp of a file is shown.
#[derive(Clone, Copy, Debug, PartialEq, Eq, Structural)]
pub enum TimeField {
    Modified,
    Changed,
    Accessed,
    Created,
}

impl TimeField {
    /// The timestamp that a word names, if it names one.
    pub open spec fn spec_parse(word: Seq<char>) -> Option<TimeField> {
        if word == "modified"@ {
            Some(TimeField::Modified)
        } else if word == "accessed"@ {
            Some(TimeField::Accessed)
        } else if word == "created"@ {
            Some(TimeField::Created)
        } else {
            None
        }
    }

    /// The timestamp that a word names, if it names one.
    pub fn parse(word: &str) -> (field: Option<TimeField>)
        ensures
            field == TimeField::spec_parse(word@),
    {
        if str_eq(word, "modified") {
            Some(TimeField::Modified)
        } else if str_eq(word, "accessed") {
            Some(TimeField::Accessed)
        } else if str_eq(word, "created") {
            Some(TimeField::Created)
        } else {
            None
        }
    }

    /// The value of `time` that counts: none when `no-time` is present.
    pub open spec fn spec_word(bag: BagView) -> Option<Seq<char>> {
        if bag.has(Flag::NoTime) {
            None
        } else {
            bag.value(Flag::Time)
        }
    }

    /// The timestamp that wins among those asked for, `named` being the one
    /// that the value of `time` names.
    pub open spec fn spec_winner(bag: BagView, named: Option<TimeField>) -> TimeField {
        if bag.has(Flag::Modified) || named == Some(TimeField::Modified) {
            TimeField::Modified
        } else if bag.has(Flag::Created) || named == Some(TimeField::Created) {
            TimeField::Created
        } else if bag.has(Flag::Accessed) || named == Some(TimeField::Accessed) {
            TimeField::Accessed
        } else if bag.has(Flag::Changed) {
            TimeField::Changed
        } else {
            TimeField::Modified
        }
    }

    /// The timestamp field of a bag, or the failure that prevents one.
    pub open spec fn spec_deduce(bag: BagView) -> Result<TimeField, DeductionErrorView> {
        match TimeField::spec_word(bag) {
            None => Ok(TimeField::spec_winner(bag, None)),
            Some(word) => match TimeField::spec_parse(word) {
                Some(field) => Ok(TimeField::spec_winner(bag, Some(field))),
                None => Err(DeductionErrorView::BadArgument { flag: Flag::Time, given: word }),
            },
        }
    }

    /// Picks the winner among the timestamps asked for.
    fn winner(bag: &FlagBag, named: Option<TimeField>) -> (field: TimeField)
        ensures
            field == TimeField::spec_winner(bag@, named),
    {
        let (modified, created, accessed) = match named {
            Some(TimeField::Modified) => (true, false, false),
            Some(TimeField::Created) => (false, true, false),
            Some(TimeField::Accessed) => (false, false, true),
            _ => (false, false, false),
        };
        if bag.has(Flag::Modified) || modified {
            TimeField::Modified
        } else if bag.has(Flag::Created) || created {
            TimeField::Created
        } else if bag.has(Flag::Accessed) || accessed {
            TimeField::Accessed
        } else if bag.has(Flag::Changed) {
            TimeField::Changed
        } else {
            TimeField::Modified
        }
    }

    /// Resolves the timestamp field.
    ///
    /// The value of `time` asks for a timestamp as the flag of that
    /// timestamp does, unless `no-time` is present: then the value is not
    /// looked at. Fails exactly when the value is looked at and names no
    /// timestamp.
    pub fn deduce(bag: &FlagBag) -> (outcome: Result<TimeField, DeductionError>)
        ensures
            agrees(outcome, TimeField::spec_deduce(bag@)),
    {
        let word = if bag.has(Flag::NoTime) {
            None
        } else {
            bag.value(Flag::Time)
        };
        match word {
            None => Ok(TimeField::winner(bag, None)),
            Some(word) => match TimeField::parse(word) {
                Some(field) => Ok(TimeField::winner(bag, Some(field))),
                None => Err(DeductionError::bad_argument(Flag::Time, word)),
            },
        }
    }
}

/// How file sizes are written.
#[derive(Clone, Copy, Debug, PartialEq, Eq, Structural)]
pub enum SizeFormat {
    /// With decimal prefixes.
    Decimal,
    /// With binary prefixes.
    Binary,
    /// In bytes, without prefixes.
    Bytes,
}

impl SizeFormat {
    /// The size format of a bag: `bytes` wins over `binary`.
    pub open spec fn spec_deduce(bag: BagView) -> SizeFormat {
        if bag.has(Flag::Bytes) {
            SizeFormat::Bytes
        } else if bag.has(Flag::Binary) {
            SizeFormat::Binary
        } else {
            SizeFormat::Decimal
        }
    }

    /// Resolves the size format. This never fails.
    pub fn deduce(bag: &FlagBag) -> (format: SizeFormat)
        ensures
            format == SizeFormat::spec_deduce(bag@),
    {
        if bag.has(Flag::Bytes) {
            SizeFormat::Bytes
        } else if bag.has(Flag::Binary) {
            SizeFormat::Binary
        } else {
            SizeFormat::Decimal
        }
    }
}

/// The columns of the long view.
#[derive(Clone, Copy, Debug, PartialEq, Eq, Structural)]
pub struct Columns {
    pub permissions: bool,
    pub octal: bool,
    pub filesize: bool,
    pub size_format: SizeFormat,
    pub user: bool,
    pub group: bool,
    pub time: bool,
    pub inode: bool,
    pub links: bool,
    pub blocksize: bool,
    pub header: bool,
    pub numeric: bool,
    pub extended: bool,
    pub security_context: bool,
}

impl Columns {
    /// The columns of a bag in a build.
    pub open spec fn spec_deduce(bag: BagView, features: Features) -> Columns {
        Columns {
            permissions: !bag.has(Flag::NoPermissions),
            octal: bag.has(Flag::Octal),
            filesize: !bag.has(Flag::NoFilesize),
            size_format: SizeFormat::spec_deduce(bag),
            user: !bag.has(Flag::NoUser),
            group: bag.has(Flag::Group),
            time: !bag.has(Flag::NoTime),
            inode: bag.has(Flag::Inode),
            links: bag.has(Flag::Links),
            blocksize: bag.has(Flag::Blocksize),
            header: bag.has(Flag::Header),
            numeric: bag.has(Flag::Numeric),
            extended: features.xattr && bag.has(Flag::Extended),
            security_context: features.xattr && bag.has(Flag::SecurityContext),
        }
    }

    /// Resolves the columns of the long view. This never fails.
    pub fn deduce(bag: &FlagBag, features: Features) -> (columns: Columns)
        ensures
            columns == Columns::spec_deduce(bag@, features),
    {
        Columns {
            permissions: !bag.has(Flag::NoPermissions),
            octal: bag.has(Flag::Octal),
            filesize: !bag.has(Flag::NoFilesize),
            size_format: SizeFormat::deduce(bag),
            user: !bag.has(Flag::NoUser),
            group: bag.has(Flag::Group),
            time: !bag.has(Flag::NoTime),
            inode: bag.has(Flag::Inode),
            links: bag.has(Flag::Links),
            blocksize: bag.has(Flag::Blocksize),
            header: bag.has(Flag::Header),
            numeric: bag.has(Flag::Numeric),
            extended: features.xattr && bag.has(Flag::Extended),
            security_context: features.xattr && bag.has(Flag::SecurityContext),
        }
    }
}

} // verus!
