//! Canonical flag identifiers and the spellings that resolve to them.
//!
//! Every flag has one canonical identifier. A flag may be spelled in several
//! ways: by its long name, by a one-character short form, and for a few flags
//! by a documented spelling variant of the long name. All spellings of one
//! flag resolve to the same identifier.

use crate::spelling::lemma_resolves_iff_spelled;
use crate::text::str_eq;
use vstd::prelude::*;

verus! {

/// The number of canonical flag identifiers.
pub const FLAG_COUNT: usize = 53;

/// The canonical identifier of a flag.
#[derive(Clone, Copy, Debug, PartialEq, Eq, Hash, Structural)]
pub enum Flag {
    /// Show hidden files; twice, also the `.` and `..` entries.
    All,
    /// Show hidden files, never the `.` and `..` entries.
    AlmostAll,
    /// List each file's Git status.
    Git,
    /// Display one entry per line.
    Oneline,
    /// Display extended metadata as a table.
    Long,
    /// Recurse into directories as a tree.
    Tree,
    /// Display entries as a grid.
    Grid,
    /// Sort the grid across, rather than downwards.
    Across,
    /// Recurse into directories.
    Recurse,
    /// Display a type indicator by file names.
    Classify,
    /// Dereference symbolic links.
    Dereference,
    /// Screen width in columns.
    Width,
    /// When to use terminal colours.
    Color,
    /// Highlight levels of file sizes distinctly.
    ColorScale,
    /// List directories as files.
    ListDirs,
    /// Limit the depth of recursion.
    Level,
    /// Reverse the sort order.
    Reverse,
    /// Which field to sort by.
    Sort,
    /// Glob patterns of files to ignore.
    IgnoreGlob,
    /// Ignore files mentioned in `.gitignore`.
    GitIgnore,
    /// List directories before other files.
    DirsFirst,
    /// List only directories.
    OnlyDirs,
    /// List only files.
    OnlyFiles,
    /// List file sizes with binary prefixes.
    Binary,
    /// List file sizes in bytes.
    Bytes,
    /// List each file's group.
    Group,
    /// List numeric user and group IDs.
    Numeric,
    /// Add a header row to each column.
    Header,
    /// When to display icons.
    Icons,
    /// List each file's inode number.
    Inode,
    /// List each file's number of hard links.
    Links,
    /// Use the modified timestamp field.
    Modified,
    /// Use the changed timestamp field.
    Changed,
    /// Use the accessed timestamp field.
    Accessed,
    /// Use the created timestamp field.
    Created,
    /// Show the size of allocated file system blocks.
    Blocksize,
    /// Which timestamp field to list.
    Time,
    /// How to format timestamps.
    TimeStyle,
    /// Display entries as hyperlinks.
    Hyperlink,
    /// Suppress the permissions field.
    NoPermissions,
    /// Suppress the file size field.
    NoFilesize,
    /// Suppress the user field.
    NoUser,
    /// Suppress the time field.
    NoTime,
    /// Never display icons.
    NoIcons,
    /// Suppress Git status.
    NoGit,
    /// Do not quote file names.
    NoQuotes,
    /// List the Git status of each repository root.
    GitRepos,
    /// List the branch of each repository root.
    GitReposNoStatus,
    /// List each file's permissions in octal.
    Octal,
    /// List each file's security context.
    SecurityContext,
    /// List each file's extended attributes.
    Extended,
    /// Show mount details.
    Mount,
    /// Show the list of command-line options.
    Help,
}

impl Flag {
    /// The position of this flag in a table of all flags.
    pub open spec fn spec_index(self) -> nat {
        match self {
            Flag::All => 0,
            Flag::AlmostAll => 1,
            Flag::Git => 2,
            Flag::Oneline => 3,
            Flag::Long => 4,
            Flag::Tree => 5,
            Flag::Grid => 6,
            Flag::Across => 7,
            Flag::Recurse => 8,
            Flag::Classify => 9,
            Flag::Dereference => 10,
            Flag::Width => 11,
            Flag::Color => 12,
            Flag::ColorScale => 13,
            Flag::ListDirs => 14,
            Flag::Level => 15,
            Flag::Reverse => 16,
            Flag::Sort => 17,
            Flag::IgnoreGlob => 18,
            Flag::GitIgnore => 19,
            Flag::DirsFirst => 20,
            Flag::OnlyDirs => 21,
            Flag::OnlyFiles => 22,
            Flag::Binary => 23,
            Flag::Bytes => 24,
            Flag::Group => 25,
            Flag::Numeric => 26,
            Flag::Header => 27,
            Flag::Icons => 28,
            Flag::Inode => 29,
            Flag::Links => 30,
            Flag::Modified => 31,
            Flag::Changed => 32,
            Flag::Accessed => 33,
            Flag::Created => 34,
            Flag::Blocksize => 35,
            Flag::Time => 36,
            Flag::TimeStyle => 37,
            Flag::Hyperlink => 38,
            Flag::NoPermissions => 39,
            Flag::NoFilesize => 40,
            Flag::NoUser => 41,
            Flag::NoTime => 42,
            Flag::NoIcons => 43,
            Flag::NoGit => 44,
            Flag::NoQuotes => 45,
            Flag::GitRepos => 46,
            Flag::GitReposNoStatus => 47,
            Flag::Octal => 48,
            Flag::SecurityContext => 49,
            Flag::Extended => 50,
            Flag::Mount => 51,
            Flag::Help => 52,
        }
    }

    /// The position of this flag in a table of all flags: distinct flags
    /// have distinct positions, all below [`FLAG_COUNT`].
    pub fn index(self) -> (i: usize)
        ensures
            i == self.spec_index(),
            i < FLAG_COUNT,
    {
        match self {
            Flag::All => 0,
            Flag::AlmostAll => 1,
            Flag::Git => 2,
            Flag::Oneline => 3,
            Flag::Long => 4,
            Flag::Tree => 5,
            Flag::Grid => 6,
            Flag::Across => 7,
            Flag::Recurse => 8,
            Flag::Classify => 9,
            Flag::Dereference => 10,
            Flag::Width => 11,
            Flag::Color => 12,
            Flag::ColorScale => 13,
            Flag::ListDirs => 14,
            Flag::Level => 15,
            Flag::Reverse => 16,
            Flag::Sort => 17,
            Flag::IgnoreGlob => 18,
            Flag::GitIgnore => 19,
            Flag::DirsFirst => 20,
            Flag::OnlyDirs => 21,
            Flag::OnlyFiles => 22,
            Flag::Binary => 23,
            Flag::Bytes => 24,
            Flag::Group => 25,
            Flag::Numeric => 26,
            Flag::Header => 27,
            Flag::Icons => 28,
            Flag::Inode => 29,
            Flag::Links => 30,
            Flag::Modified => 31,
            Flag::Changed => 32,
            Flag::Accessed => 33,
            Flag::Created => 34,
            Flag::Blocksize => 35,
            Flag::Time => 36,
            Flag::TimeStyle => 37,
            Flag::Hyperlink => 38,
            Flag::NoPermissions => 39,
            Flag::NoFilesize => 40,
            Flag::NoUser => 41,
            Flag::NoTime => 42,
            Flag::NoIcons => 43,
            Flag::NoGit => 44,
            Flag::NoQuotes => 45,
            Flag::GitRepos => 46,
            Flag::GitReposNoStatus => 47,
            Flag::Octal => 48,
            Flag::SecurityContext => 49,
            Flag::Extended => 50,
            Flag::Mount => 51,
            Flag::Help => 52,
        }
    }

    /// The canonical long name, without the leading dashes.
    pub open spec fn spec_long_name(self) -> Seq<char> {
        match self {
            Flag::All => "all"@,
            Flag::AlmostAll => "almost-all"@,
            Flag::Git => "git"@,
            Flag::Oneline => "oneline"@,
            Flag::Long => "long"@,
            Flag::Tree => "tree"@,
            Flag::Grid => "grid"@,
            Flag::Across => "across"@,
            Flag::Recurse => "recurse"@,
            Flag::Classify => "classify"@,
            Flag::Dereference => "dereference"@,
            Flag::Width => "width"@,
            Flag::Color => "color"@,
            Flag::ColorScale => "color-scale"@,
            Flag::ListDirs => "list-dirs"@,
            Flag::Level => "level"@,
            Flag::Reverse => "reverse"@,
            Flag::Sort => "sort"@,
            Flag::IgnoreGlob => "ignore-glob"@,
            Flag::GitIgnore => "git-ignore"@,
            Flag::DirsFirst => "group-directories-first"@,
            Flag::OnlyDirs => "only-dirs"@,
            Flag::OnlyFiles => "only-files"@,
            Flag::Binary => "binary"@,
            Flag::Bytes => "bytes"@,
            Flag::Group => "group"@,
            Flag::Numeric => "numeric"@,
            Flag::Header => "header"@,
            Flag::Icons => "icons"@,
            Flag::Inode => "inode"@,
            Flag::Links => "links"@,
            Flag::Modified => "modified"@,
            Flag::Changed => "changed"@,
            Flag::Accessed => "accessed"@,
            Flag::Created => "created"@,
            Flag::Blocksize => "blocksize"@,
            Flag::Time => "time"@,
            Flag::TimeStyle => "time-style"@,
            Flag::Hyperlink => "hyperlink"@,
            Flag::NoPermissions => "no-permissions"@,
            Flag::NoFilesize => "no-filesize"@,
            Flag::NoUser => "no-user"@,
            Flag::NoTime => "no-time"@,
            Flag::NoIcons => "no-icons"@,
            Flag::NoGit => "no-git"@,
            Flag::NoQuotes => "no-quotes"@,
            Flag::GitRepos => "git-repos"@,
            Flag::GitReposNoStatus => "git-repos-no-status"@,
            Flag::Octal => "octal"@,
            Flag::SecurityContext => "context"@,
            Flag::Extended => "extended"@,
            Flag::Mount => "mount"@,
            Flag::Help => "help"@,
        }
    }

    /// The canonical long name, without the leading dashes.
    pub fn long_name(self) -> (name: &'static str)
        ensures
            name@ == self.spec_long_name(),
    {
        match self {
            Flag::All => "all",
            Flag::AlmostAll => "almost-all",
            Flag::Git => "git",
            Flag::Oneline => "oneline",
            Flag::Long => "long",
            Flag::Tree => "tree",
            Flag::Grid => "grid",
            Flag::Across => "across",
            Flag::Recurse => "recurse",
            Flag::Classify => "classify",
            Flag::Dereference => "dereference",
            Flag::Width => "width",
            Flag::Color => "color",
            Flag::ColorScale => "color-scale",
            Flag::ListDirs => "list-dirs",
            Flag::Level => "level",
            Flag::Reverse => "reverse",
            Flag::Sort => "sort",
            Flag::IgnoreGlob => "ignore-glob",
            Flag::GitIgnore => "git-ignore",
            Flag::DirsFirst => "group-directories-first",
            Flag::OnlyDirs => "only-dirs",
            Flag::OnlyFiles => "only-files",
            Flag::Binary => "binary",
            Flag::Bytes => "bytes",
            Flag::Group => "group",
            Flag::Numeric => "numeric",
            Flag::Header => "header",
            Flag::Icons => "icons",
            Flag::Inode => "inode",
            Flag::Links => "links",
            Flag::Modified => "modified",
            Flag::Changed => "changed",
            Flag::Accessed => "accessed",
            Flag::Created => "created",
            Flag::Blocksize => "blocksize",
            Flag::Time => "time",
            Flag::TimeStyle => "time-style",
            Flag::Hyperlink => "hyperlink",
            Flag::NoPermissions => "no-permissions",
            Flag::NoFilesize => "no-filesize",
            Flag::NoUser => "no-user",
            Flag::NoTime => "no-time",
            Flag::NoIcons => "no-icons",
            Flag::NoGit => "no-git",
            Flag::NoQuotes => "no-quotes",
            Flag::GitRepos => "git-repos",
            Flag::GitReposNoStatus => "git-repos-no-status",
            Flag::Octal => "octal",
            Flag::SecurityContext => "context",
            Flag::Extended => "extended",
            Flag::Mount => "mount",
            Flag::Help => "help",
        }
    }

    /// Every long spelling of the flag: its canonical name first, then the
    /// documented spelling variants.
    pub open spec fn spec_spellings(self) -> Seq<Seq<char>> {
        match self {
            Flag::Color => seq!["color"@, "colour"@],
            Flag::ColorScale => seq!["color-scale"@, "colour-scale"@],
            Flag::Octal => seq!["octal"@, "octal-permission"@, "octal-permissions"@],
            Flag::Mount => seq!["mount"@, "mounts"@],
            _ => seq![self.spec_long_name()],
        }
    }

    /// The one-character short form, for the flags that have one.
    pub open spec fn spec_short_name(self) -> Option<char> {
        match self {
            Flag::All => Some('a'),
            Flag::AlmostAll => Some('A'),
            Flag::Oneline => Some('1'),
            Flag::Long => Some('l'),
            Flag::Tree => Some('T'),
            Flag::Grid => Some('G'),
            Flag::Across => Some('x'),
            Flag::Recurse => Some('R'),
            Flag::Classify => Some('F'),
            Flag::Dereference => Some('X'),
            Flag::Width => Some('w'),
            Flag::ListDirs => Some('d'),
            Flag::Level => Some('L'),
            Flag::Reverse => Some('r'),
            Flag::Sort => Some('s'),
            Flag::IgnoreGlob => Some('I'),
            Flag::OnlyDirs => Some('D'),
            Flag::OnlyFiles => Some('f'),
            Flag::Binary => Some('b'),
            Flag::Bytes => Some('B'),
            Flag::Group => Some('g'),
            Flag::Numeric => Some('n'),
            Flag::Header => Some('h'),
            Flag::Inode => Some('i'),
            Flag::Links => Some('H'),
            Flag::Modified => Some('m'),
            Flag::Accessed => Some('u'),
            Flag::Created => Some('U'),
            Flag::Blocksize => Some('S'),
            Flag::Time => Some('t'),
            Flag::Octal => Some('o'),
            Flag::SecurityContext => Some('Z'),
            Flag::Extended => Some('@'),
            Flag::Mount => Some('M'),
            Flag::Help => Some('?'),
            _ => None,
        }
    }

    /// The one-character short form, for the flags that have one.
    pub fn short_name(self) -> (short: Option<char>)
        ensures
            short == self.spec_short_name(),
    {
        match self {
            Flag::All => Some('a'),
            Flag::AlmostAll => Some('A'),
            Flag::Oneline => Some('1'),
            Flag::Long => Some('l'),
            Flag::Tree => Some('T'),
            Flag::Grid => Some('G'),
            Flag::Across => Some('x'),
            Flag::Recurse => Some('R'),
            Flag::Classify => Some('F'),
            Flag::Dereference => Some('X'),
            Flag::Width => Some('w'),
            Flag::ListDirs => Some('d'),
            Flag::Level => Some('L'),
            Flag::Reverse => Some('r'),
            Flag::Sort => Some('s'),
            Flag::IgnoreGlob => Some('I'),
            Flag::OnlyDirs => Some('D'),
            Flag::OnlyFiles => Some('f'),
            Flag::Binary => Some('b'),
            Flag::Bytes => Some('B'),
            Flag::Group => Some('g'),
            Flag::Numeric => Some('n'),
            Flag::Header => Some('h'),
            Flag::Inode => Some('i'),
            Flag::Links => Some('H'),
            Flag::Modified => Some('m'),
            Flag::Accessed => Some('u'),
            Flag::Created => Some('U'),
            Flag::Blocksize => Some('S'),
            Flag::Time => Some('t'),
            Flag::Octal => Some('o'),
            Flag::SecurityContext => Some('Z'),
            Flag::Extended => Some('@'),
            Flag::Mount => Some('M'),
            Flag::Help => Some('?'),
            _ => None,
        }
    }

    /// Whether the flag carries an associated string value.
    pub open spec fn spec_takes_value(self) -> bool {
        match self {
            Flag::Width
            | Flag::Color
            | Flag::Level
            | Flag::Sort
            | Flag::IgnoreGlob
            | Flag::Icons
            | Flag::Time
            | Flag::TimeStyle => true,
            _ => false,
        }
    }

    /// Whether the flag carries an associated string value.
    pub fn takes_value(self) -> (takes: bool)
        ensures
            takes == self.spec_takes_value(),
    {
        match self {
            Flag::Width
            | Flag::Color
            | Flag::Level
            | Flag::Sort
            | Flag::IgnoreGlob
            | Flag::Icons
            | Flag::Time
            | Flag::TimeStyle => true,
            _ => false,
        }
    }

    /// The flag that a long spelling resolves to. Spelling variants of one
    /// flag resolve to the same identifier; an unknown spelling resolves to
    /// nothing.
    #[verifier::opaque]
    pub open spec fn spec_from_long(name: Seq<char>) -> Option<Flag> {
        if name == "all"@ {
            Some(Flag::All)
        } else if name == "almost-all"@ {
            Some(Flag::AlmostAll)
        } else if name == "git"@ {
            Some(Flag::Git)
        } else if name == "oneline"@ {
            Some(Flag::Oneline)
        } else if name == "long"@ {
            Some(Flag::Long)
        } else if name == "tree"@ {
            Some(Flag::Tree)
        } else if name == "grid"@ {
            Some(Flag::Grid)
        } else if name == "across"@ {
            Some(Flag::Across)
        } else if name == "recurse"@ {
            Some(Flag::Recurse)
        } else if name == "classify"@ {
            Some(Flag::Classify)
        } else if name == "dereference"@ {
            Some(Flag::Dereference)
        } else if name == "width"@ {
            Some(Flag::Width)
        } else if name == "color"@ {
            Some(Flag::Color)
        } else if name == "colour"@ {
            Some(Flag::Color)
        } else if name == "color-scale"@ {
            Some(Flag::ColorScale)
        } else if name == "colour-scale"@ {
            Some(Flag::ColorScale)
        } else if name == "list-dirs"@ {
            Some(Flag::ListDirs)
        } else if name == "level"@ {
            Some(Flag::Level)
        } else if name == "reverse"@ {
            Some(Flag::Reverse)
        } else if name == "sort"@ {
            Some(Flag::Sort)
        } else if name == "ignore-glob"@ {
            Some(Flag::IgnoreGlob)
        } else if name == "git-ignore"@ {
            Some(Flag::GitIgnore)
        } else if name == "group-directories-first"@ {
            Some(Flag::DirsFirst)
        } else if name == "only-dirs"@ {
            Some(Flag::OnlyDirs)
        } else if name == "only-files"@ {
            Some(Flag::OnlyFiles)
        } else if name == "binary"@ {
            Some(Flag::Binary)
        } else if name == "bytes"@ {
            Some(Flag::Bytes)
        } else if name == "group"@ {
            Some(Flag::Group)
        } else if name == "numeric"@ {
            Some(Flag::Numeric)
        } else if name == "header"@ {
            Some(Flag::Header)
        } else if name == "icons"@ {
            Some(Flag::Icons)
        } else if name == "inode"@ {
            Some(Flag::Inode)
        } else if name == "links"@ {
            Some(Flag::Links)
        } else if name == "modified"@ {
            Some(Flag::Modified)
        } else if name == "changed"@ {
            Some(Flag::Changed)
        } else if name == "accessed"@ {
            Some(Flag::Accessed)
        } else if name == "created"@ {
            Some(Flag::Created)
        } else if name == "blocksize"@ {
            Some(Flag::Blocksize)
        } else if name == "time"@ {
            Some(Flag::Time)
        } else if name == "time-style"@ {
            Some(Flag::TimeStyle)
        } else if name == "hyperlink"@ {
            Some(Flag::Hyperlink)
        } else if name == "no-permissions"@ {
            Some(Flag::NoPermissions)
        } else if name == "no-filesize"@ {
            Some(Flag::NoFilesize)
        } else if name == "no-user"@ {
            Some(Flag::NoUser)
        } else if name == "no-time"@ {
            Some(Flag::NoTime)
        } else if name == "no-icons"@ {
            Some(Flag::NoIcons)
        } else if name == "no-git"@ {
            Some(Flag::NoGit)
        } else if name == "no-quotes"@ {
            Some(Flag::NoQuotes)
        } else if name == "git-repos"@ {
            Some(Flag::GitRepos)
        } else if name == "git-repos-no-status"@ {
            Some(Flag::GitReposNoStatus)
        } else if name == "octal"@ {
            Some(Flag::Octal)
        } else if name == "octal-permission"@ {
            Some(Flag::Octal)
        } else if name == "octal-permissions"@ {
            Some(Flag::Octal)
        } else if name == "context"@ {
            Some(Flag::SecurityContext)
        } else if name == "extended"@ {
            Some(Flag::Extended)
        } else if name == "mount"@ {
            Some(Flag::Mount)
        } else if name == "mounts"@ {
            Some(Flag::Mount)
        } else if name == "help"@ {
            Some(Flag::Help)
        } else {
            None
        }
    }

    /// Walks the table of long spellings.
    fn look_up_long(name: &str) -> (flag: Option<Flag>)
        ensures
            flag == Flag::spec_from_long(name@),
    {
        reveal(Flag::spec_from_long);
        if str_eq(name, "all") {
            return Some(Flag::All);
        }
        if str_eq(name, "almost-all") {
            return Some(Flag::AlmostAll);
        }
        if str_eq(name, "git") {
            return Some(Flag::Git);
        }
        if str_eq(name, "oneline") {
            return Some(Flag::Oneline);
        }
        if str_eq(name, "long") {
            return Some(Flag::Long);
        }
        if str_eq(name, "tree") {
            return Some(Flag::Tree);
        }
        if str_eq(name, "grid") {
            return Some(Flag::Grid);
        }
        if str_eq(name, "across") {
            return Some(Flag::Across);
        }
        if str_eq(name, "recurse") {
            return Some(Flag::Recurse);
        }
        if str_eq(name, "classify") {
            return Some(Flag::Classify);
        }
        if str_eq(name, "dereference") {
            return Some(Flag::Dereference);
        }
        if str_eq(name, "width") {
            return Some(Flag::Width);
        }
        if str_eq(name, "color") {
            return Some(Flag::Color);
        }
        if str_eq(name, "colour") {
            return Some(Flag::Color);
        }
        if str_eq(name, "color-scale") {
            return Some(Flag::ColorScale);
        }
        if str_eq(name, "colour-scale") {
            return Some(Flag::ColorScale);
        }
        if str_eq(name, "list-dirs") {
            return Some(Flag::ListDirs);
        }
        if str_eq(name, "level") {
            return Some(Flag::Level);
        }
        if str_eq(name, "reverse") {
            return Some(Flag::Reverse);
        }
        if str_eq(name, "sort") {
            return Some(Flag::Sort);
        }
        if str_eq(name, "ignore-glob") {
            return Some(Flag::IgnoreGlob);
        }
        if str_eq(name, "git-ignore") {
            return Some(Flag::GitIgnore);
        }
        if str_eq(name, "group-directories-first") {
            return Some(Flag::DirsFirst);
        }
        if str_eq(name, "only-dirs") {
            return Some(Flag::OnlyDirs);
        }
        if str_eq(name, "only-files") {
            return Some(Flag::OnlyFiles);
        }
        if str_eq(name, "binary") {
            return Some(Flag::Binary);
        }
        if str_eq(name, "bytes") {
            return Some(Flag::Bytes);
        }
        if str_eq(name, "group") {
            return Some(Flag::Group);
        }
        if str_eq(name, "numeric") {
            return Some(Flag::Numeric);
        }
        if str_eq(name, "header") {
            return Some(Flag::Header);
        }
        if str_eq(name, "icons") {
            return Some(Flag::Icons);
        }
        if str_eq(name, "inode") {
            return Some(Flag::Inode);
        }
        if str_eq(name, "links") {
            return Some(Flag::Links);
        }
        if str_eq(name, "modified") {
            return Some(Flag::Modified);
        }
        if str_eq(name, "changed") {
            return Some(Flag::Changed);
        }
        if str_eq(name, "accessed") {
            return Some(Flag::Accessed);
        }
        if str_eq(name, "created") {
            return Some(Flag::Created);
        }
        if str_eq(name, "blocksize") {
            return Some(Flag::Blocksize);
        }
        if str_eq(name, "time") {
            return Some(Flag::Time);
        }
        if str_eq(name, "time-style") {
            return Some(Flag::TimeStyle);
        }
        if str_eq(name, "hyperlink") {
            return Some(Flag::Hyperlink);
        }
        if str_eq(name, "no-permissions") {
            return Some(Flag::NoPermissions);
        }
        if str_eq(name, "no-filesize") {
            return Some(Flag::NoFilesize);
        }
        if str_eq(name, "no-user") {
            return Some(Flag::NoUser);
        }
        if str_eq(name, "no-time") {
            return Some(Flag::NoTime);
        }
        if str_eq(name, "no-icons") {
            return Some(Flag::NoIcons);
        }
        if str_eq(name, "no-git") {
            return Some(Flag::NoGit);
        }
        if str_eq(name, "no-quotes") {
            return Some(Flag::NoQuotes);
        }
        if str_eq(name, "git-repos") {
            return Some(Flag::GitRepos);
        }
        if str_eq(name, "git-repos-no-status") {
            return Some(Flag::GitReposNoStatus);
        }
        if str_eq(name, "octal") {
            return Some(Flag::Octal);
        }
        if str_eq(name, "octal-permission") {
            return Some(Flag::Octal);
        }
        if str_eq(name, "octal-permissions") {
            return Some(Flag::Octal);
        }
        if str_eq(name, "context") {
            return Some(Flag::SecurityContext);
        }
        if str_eq(name, "extended") {
            return Some(Flag::Extended);
        }
        if str_eq(name, "mount") {
            return Some(Flag::Mount);
        }
        if str_eq(name, "mounts") {
            return Some(Flag::Mount);
        }
        if str_eq(name, "help") {
            return Some(Flag::Help);
        }
        None
    }

    /// Resolves a long spelling, given without the leading dashes.
    ///
    /// The result is the flag that has the name among its spellings, and
    /// nothing if no flag has.
    pub fn from_long(name: &str) -> (flag: Option<Flag>)
        ensures
            flag == Flag::spec_from_long(name@),
            forall|f: Flag|
                flag == Some(f) <==> (#[trigger] f.spec_spellings()).contains(name@),
    {
        proof {
            assert forall|f: Flag|
                Flag::spec_from_long(name@) == Some(f) <==> (
                #[trigger] f.spec_spellings()).contains(name@) by {
                lemma_resolves_iff_spelled(name@, f);
            }
        }
        Flag::look_up_long(name)
    }

    /// The flag that a one-character short form resolves to.
    pub open spec fn spec_from_short(short: char) -> Option<Flag> {
        match short {
            'a' => Some(Flag::All),
            'A' => Some(Flag::AlmostAll),
            '1' => Some(Flag::Oneline),
            'l' => Some(Flag::Long),
            'T' => Some(Flag::Tree),
            'G' => Some(Flag::Grid),
            'x' => Some(Flag::Across),
            'R' => Some(Flag::Recurse),
            'F' => Some(Flag::Classify),
            'X' => Some(Flag::Dereference),
            'w' => Some(Flag::Width),
            'd' => Some(Flag::ListDirs),
            'L' => Some(Flag::Level),
            'r' => Some(Flag::Reverse),
            's' => Some(Flag::Sort),
            'I' => Some(Flag::IgnoreGlob),
            'D' => Some(Flag::OnlyDirs),
            'f' => Some(Flag::OnlyFiles),
            'b' => Some(Flag::Binary),
            'B' => Some(Flag::Bytes),
            'g' => Some(Flag::Group),
            'n' => Some(Flag::Numeric),
            'h' => Some(Flag::Header),
            'i' => Some(Flag::Inode),
            'H' => Some(Flag::Links),
            'm' => Some(Flag::Modified),
            'u' => Some(Flag::Accessed),
            'U' => Some(Flag::Created),
            'S' => Some(Flag::Blocksize),
            't' => Some(Flag::Time),
            'o' => Some(Flag::Octal),
            'Z' => Some(Flag::SecurityContext),
            '@' => Some(Flag::Extended),
            'M' => Some(Flag::Mount),
            '?' => Some(Flag::Help),
            _ => None,
        }
    }

    /// Resolves a one-character short form, given without the leading dash.
    ///
    /// The result is the flag that has the character as its short form,
    /// and nothing if no flag has.
    pub fn from_short(short: char) -> (flag: Option<Flag>)
        ensures
            flag == Flag::spec_from_short(short),
            forall|f: Flag|
                flag == Some(f) <==> #[trigger] f.spec_short_name() == Some(short),
    {
        match short {
            'a' => Some(Flag::All),
            'A' => Some(Flag::AlmostAll),
            '1' => Some(Flag::Oneline),
            'l' => Some(Flag::Long),
            'T' => Some(Flag::Tree),
            'G' => Some(Flag::Grid),
            'x' => Some(Flag::Across),
            'R' => Some(Flag::Recurse),
            'F' => Some(Flag::Classify),
            'X' => Some(Flag::Dereference),
            'w' => Some(Flag::Width),
            'd' => Some(Flag::ListDirs),
            'L' => Some(Flag::Level),
            'r' => Some(Flag::Reverse),
            's' => Some(Flag::Sort),
            'I' => Some(Flag::IgnoreGlob),
            'D' => Some(Flag::OnlyDirs),
            'f' => Some(Flag::OnlyFiles),
            'b' => Some(Flag::Binary),
            'B' => Some(Flag::Bytes),
            'g' => Some(Flag::Group),
            'n' => Some(Flag::Numeric),
            'h' => Some(Flag::Header),
            'i' => Some(Flag::Inode),
            'H' => Some(Flag::Links),
            'm' => Some(Flag::Modified),
            'u' => Some(Flag::Accessed),
            'U' => Some(Flag::Created),
            'S' => Some(Flag::Blocksize),
            't' => Some(Flag::Time),
            'o' => Some(Flag::Octal),
            'Z' => Some(Flag::SecurityContext),
            '@' => Some(Flag::Extended),
            'M' => Some(Flag::Mount),
            '?' => Some(Flag::Help),
            _ => None,
        }
    }
}

} // verus!
