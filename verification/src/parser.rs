//! The tokenized command line, and the styles of the tokenizer's messages.
//!
//! [`Opts`] is what a tokenizer fills in: for every spelling that it
//! accepts, how often the flag occurred or the value that came with it.
//! Spelling variants have fields of their own; they are collapsed when the
//! fields are gathered into a [`FlagBag`].

use crate::bag::{occurrence_views, BagView, FlagBag, Occurrence, OccurrenceView, Token, TokenView};
use crate::flags::Flag;
use crate::laws::{
    lemma_bag_sums_counts_and_keeps_last_value, lemma_same_totals_same_bag,
    lemma_total_of_concatenation,
};
use crate::number::{format_decimal, spec_digits};
use crate::spelling::lemma_every_spelling_resolves;
use crate::text::optional_text;
use vstd::prelude::*;

verus! {

/// One of the sixteen terminal colours.
#[derive(Clone, Copy, Debug, PartialEq, Eq, Structural)]
pub enum AnsiColor {
    Black,
    Red,
    Green,
    Yellow,
    Blue,
    Magenta,
    Cyan,
    White,
    BrightBlack,
    BrightRed,
    BrightGreen,
    BrightYellow,
    BrightBlue,
    BrightMagenta,
    BrightCyan,
    BrightWhite,
}

/// How a piece of text is set off on a terminal.
#[derive(Clone, Copy, Debug, PartialEq, Eq, Structural)]
pub struct Style {
    pub bold: bool,
    pub underline: bool,
    /// The foreground colour; the terminal's own without one.
    pub fg_color: Option<AnsiColor>,
}

/// The styles of the parts of a usage or error message.
#[derive(Clone, Copy, Debug, PartialEq, Eq, Structural)]
pub struct Styles {
    pub usage: Style,
    pub header: Style,
    pub literal: Style,
    pub invalid: Style,
    pub error: Style,
    pub valid: Style,
    pub placeholder: Style,
}

/// The styles in which usage and error messages are written.
pub open spec fn spec_styles() -> Styles {
    Styles {
        usage: Style { bold: true, underline: true, fg_color: Some(AnsiColor::White) },
        header: Style { bold: true, underline: true, fg_color: Some(AnsiColor::BrightCyan) },
        literal: Style { bold: false, underline: false, fg_color: Some(AnsiColor::BrightCyan) },
        invalid: Style { bold: true, underline: false, fg_color: Some(AnsiColor::Red) },
        error: Style { bold: true, underline: false, fg_color: Some(AnsiColor::Red) },
        valid: Style { bold: true, underline: true, fg_color: Some(AnsiColor::Green) },
        placeholder: Style { bold: false, underline: false, fg_color: Some(AnsiColor::White) },
    }
}

/// The styles in which usage and error messages are written.
pub fn get_styles() -> (styles: Styles)
    ensures
        styles == spec_styles(),
{
    Styles {
        usage: Style { bold: true, underline: true, fg_color: Some(AnsiColor::White) },
        header: Style { bold: true, underline: true, fg_color: Some(AnsiColor::BrightCyan) },
        literal: Style { bold: false, underline: false, fg_color: Some(AnsiColor::BrightCyan) },
        invalid: Style { bold: true, underline: false, fg_color: Some(AnsiColor::Red) },
        error: Style { bold: true, underline: false, fg_color: Some(AnsiColor::Red) },
        valid: Style { bold: true, underline: true, fg_color: Some(AnsiColor::Green) },
        placeholder: Style { bold: false, underline: false, fg_color: Some(AnsiColor::White) },
    }
}

/// The tokenized command line.
#[derive(Debug, PartialEq, Eq)]
pub struct Opts {
    /// The files and directories to list.
    pub paths: Vec<String>,
    /// Show hidden files.
    pub all: u8,
    /// List each file's Git status, if tracked or ignored.
    pub git: u8,
    /// Display one entry per line.
    pub oneline: u8,
    /// Display extended file metadata as a table.
    pub long: u8,
    /// Recurse into directories as a tree.
    pub tree: u8,
    /// Display entries as a grid (default).
    pub grid: u8,
    /// Sort the grid across, rather than downwards.
    pub across: u8,
    /// Recurse into directories.
    pub recurse: u8,
    /// Display type indicator by file names.
    pub classify: u8,
    /// Dereference symbolic links when displaying information.
    pub dereference: u8,
    /// Set screen width in columns.
    pub width: Option<usize>,
    /// When to use terminal colours (always, auto, never).
    pub color: Option<String>,
    /// When to use terminal colours, in the other spelling.
    pub colour: Option<String>,
    /// Highlight levels of file sizes distinctly.
    pub color_scale: u8,
    /// Highlight levels of file sizes distinctly, in the other spelling.
    pub colour_scale: u8,
    /// Show hidden files, but not the `.` and `..` entries.
    pub almost_all: u8,
    /// List directories as files; don't list their contents.
    pub list_dirs: u8,
    /// Limit the depth of recursion.
    pub level: Option<usize>,
    /// Reverse the sort order.
    pub reverse: u8,
    /// Which field to sort by.
    pub sort: Option<String>,
    /// Glob patterns (pipe-separated) of files to ignore.
    pub ignore_glob: Option<String>,
    /// Ignore files mentioned in `.gitignore`.
    pub git_ignore: u8,
    /// List directories before other files.
    pub dirs_first: u8,
    /// List only directories.
    pub only_dirs: u8,
    /// List file sizes with binary prefixes.
    pub binary: u8,
    /// List file sizes in bytes, without any prefixes.
    pub bytes: u8,
    /// List each file's group.
    pub group: u8,
    /// List numeric user and group IDs.
    pub numeric: u8,
    /// Add a header row to each column.
    pub header: u8,
    /// Display icons.
    pub icons: u8,
    /// List each file's inode number.
    pub inode: u8,
    /// List each file's number of hard links.
    pub links: u8,
    /// Use the modified timestamp field.
    pub modified: u8,
    /// Use the changed timestamp field.
    pub changed: u8,
    /// Show size of allocated file system blocks.
    pub blocksize: u8,
    /// Which timestamp field to list (modified, accessed, created).
    pub time: Option<String>,
    /// Use the accessed timestamp field.
    pub accessed: u8,
    /// Use the created timestamp field.
    pub created: u8,
    /// How to format timestamps.
    pub time_style: Option<String>,
    /// Display entries as hyperlinks.
    pub hyperlink: u8,
    /// Suppress the permissions field.
    pub no_permissions: u8,
    /// Suppress the filesize field.
    pub no_filesize: u8,
    /// Suppress the user field.
    pub no_user: u8,
    /// Suppress the time field.
    pub no_time: u8,
    /// Don't display icons (always overrides `icons`).
    pub no_icons: u8,
    /// Suppress Git status.
    pub no_git: u8,
    /// List the Git status of each repository root.
    pub git_repos: u8,
    /// List the branch of each repository root.
    pub git_repos_no_status: u8,
    /// List each file's permission in octal format.
    pub octal: u8,
    /// List each file's security context.
    pub security_context: u8,
    /// Show extended attributes.
    pub extended: u8,
    /// Show list of command-line options.
    pub help: Option<bool>,
    /// Show mount details.
    pub mount: u8,
    /// Show only files.
    pub only_files: u8,
    /// Don't quote file names.
    pub no_quotes: u8,
}

/// What a flag that occurred `count` times under a long spelling adds to
/// the occurrences: nothing when it did not occur.
pub open spec fn counted(name: Seq<char>, count: u8) -> Seq<OccurrenceView> {
    if count > 0 {
        seq![OccurrenceView { token: TokenView::Long(name), count: count as nat, value: None }]
    } else {
        Seq::empty()
    }
}

/// What a flag that takes a value adds to the occurrences: one occurrence
/// with the value, nothing without one.
pub open spec fn valued(name: Seq<char>, value: Option<Seq<char>>) -> Seq<OccurrenceView> {
    match value {
        Some(text) => seq![
            OccurrenceView { token: TokenView::Long(name), count: 1, value: Some(text) },
        ],
        None => Seq::empty(),
    }
}

/// One for a flag that is present, zero for one that is not.
pub open spec fn present(is_present: bool) -> nat {
    if is_present {
        1
    } else {
        0
    }
}

/// The digits of an optional number.
pub open spec fn optional_digits(number: Option<usize>) -> Option<Seq<char>> {
    match number {
        Some(n) => Some(spec_digits(n as nat)),
        None => None,
    }
}

/// Adds the occurrences of a flag that takes no value.
fn push_counted(list: &mut Vec<Occurrence>, name: &str, count: u8)
    ensures
        occurrence_views(final(list)@) == occurrence_views(old(list)@) + counted(name@, count),
{
    if count > 0 {
        let ghost before = list@;
        list.push(Occurrence { token: Token::Long(name.to_owned()), count, value: None });
        assert(occurrence_views(list@) =~= occurrence_views(before) + counted(name@, count));
    } else {
        assert(occurrence_views(list@) + counted(name@, count) =~= occurrence_views(list@));
    }
}

/// Adds the occurrence of a flag that takes a value.
fn push_valued(list: &mut Vec<Occurrence>, name: &str, value: Option<String>)
    ensures
        occurrence_views(final(list)@) == occurrence_views(old(list)@) + valued(
            name@,
            optional_text(value),
        ),
{
    match value {
        Some(text) => {
            let ghost before = list@;
            let ghost expected = valued(name@, Some(text@));
            list.push(
                Occurrence { token: Token::Long(name.to_owned()), count: 1, value: Some(text) },
            );
            assert(occurrence_views(list@) =~= occurrence_views(before) + expected);
        },
        None => {
            assert(occurrence_views(list@) + valued(name@, None) =~= occurrence_views(list@));
        },
    }
}

/// A copy of an optional text.
fn copy_of(value: &Option<String>) -> (copy: Option<String>)
    ensures
        optional_text(copy) == optional_text(*value),
{
    match value {
        Some(text) => Some(text.clone()),
        None => None,
    }
}

/// An optional number written in decimal digits.
fn digits_of(number: Option<usize>) -> (digits: Option<String>)
    ensures
        optional_text(digits) == optional_digits(number),
{
    match number {
        Some(n) => Some(format_decimal(n)),
        None => None,
    }
}

/// What the occurrences of a flag without value add to the occurrences so
/// far.
proof fn lemma_counted(
    so_far: Seq<OccurrenceView>,
    name: Seq<char>,
    count: u8,
    target: Flag,
    flag: Flag,
)
    requires
        Flag::spec_from_long(name) == Some(target),
    ensures
        BagView::total(so_far + counted(name, count), flag) == BagView::total(so_far, flag)
            + if flag == target {
            count as nat
        } else {
            0
        },
        BagView::last_value(so_far + counted(name, count), flag) == BagView::last_value(
            so_far,
            flag,
        ),
{
    reveal_with_fuel(BagView::total, 2);
    reveal_with_fuel(BagView::last_value, 2);
    if count > 0 {
        assert(counted(name, count).drop_last() =~= Seq::<OccurrenceView>::empty());
    }
    lemma_total_of_concatenation(so_far, counted(name, count), flag);
}

/// What the occurrence of a flag with a value adds to the occurrences so
/// far.
proof fn lemma_valued(
    so_far: Seq<OccurrenceView>,
    name: Seq<char>,
    value: Option<Seq<char>>,
    target: Flag,
    flag: Flag,
)
    requires
        Flag::spec_from_long(name) == Some(target),
        target.spec_takes_value(),
    ensures
        BagView::total(so_far + valued(name, value), flag) == BagView::total(so_far, flag)
            + if flag == target {
            present(value is Some)
        } else {
            0
        },
        BagView::last_value(so_far + valued(name, value), flag) == if flag == target
            && value is Some {
            value
        } else {
            BagView::last_value(so_far, flag)
        },
{
    reveal_with_fuel(BagView::total, 2);
    reveal_with_fuel(BagView::last_value, 2);
    if value is Some {
        assert(valued(name, value).drop_last() =~= Seq::<OccurrenceView>::empty());
    }
    lemma_total_of_concatenation(so_far, valued(name, value), flag);
}

impl Opts {
    /// Whether this is the command line without any argument.
    pub open spec fn spec_is_default(&self) -> bool {
        &&& self.paths@.len() == 0
        &&& self.all == 0
        &&& self.git == 0
        &&& self.oneline == 0
        &&& self.long == 0
        &&& self.tree == 0
        &&& self.grid == 0
        &&& self.across == 0
        &&& self.recurse == 0
        &&& self.classify == 0
        &&& self.dereference == 0
        &&& self.width is None
        &&& self.color is None
        &&& self.colour is None
        &&& self.color_scale == 0
        &&& self.colour_scale == 0
        &&& self.almost_all == 0
        &&& self.list_dirs == 0
        &&& self.level is None
        &&& self.reverse == 0
        &&& self.sort is None
        &&& self.ignore_glob is None
        &&& self.git_ignore == 0
        &&& self.dirs_first == 0
        &&& self.only_dirs == 0
        &&& self.binary == 0
        &&& self.bytes == 0
        &&& self.group == 0
        &&& self.numeric == 0
        &&& self.header == 0
        &&& self.icons == 0
        &&& self.inode == 0
        &&& self.links == 0
        &&& self.modified == 0
        &&& self.changed == 0
        &&& self.blocksize == 0
        &&& self.time is None
        &&& self.accessed == 0
        &&& self.created == 0
        &&& self.time_style is None
        &&& self.hyperlink == 0
        &&& self.no_permissions == 0
        &&& self.no_filesize == 0
        &&& self.no_user == 0
        &&& self.no_time == 0
        &&& self.no_icons == 0
        &&& self.no_git == 0
        &&& self.git_repos == 0
        &&& self.git_repos_no_status == 0
        &&& self.octal == 0
        &&& self.security_context == 0
        &&& self.extended == 0
        &&& self.help == Some(false)
        &&& self.mount == 0
        &&& self.only_files == 0
        &&& self.no_quotes == 0
    }

    /// The command line without any argument.
    pub fn default() -> (opts: Opts)
        ensures
            opts.spec_is_default(),
    {
        Opts {
            paths: Vec::new(),
            all: 0,
            git: 0,
            oneline: 0,
            long: 0,
            tree: 0,
            grid: 0,
            across: 0,
            recurse: 0,
            classify: 0,
            dereference: 0,
            width: None,
            color: None,
            colour: None,
            color_scale: 0,
            colour_scale: 0,
            almost_all: 0,
            list_dirs: 0,
            level: None,
            reverse: 0,
            sort: None,
            ignore_glob: None,
            git_ignore: 0,
            dirs_first: 0,
            only_dirs: 0,
            binary: 0,
            bytes: 0,
            group: 0,
            numeric: 0,
            header: 0,
            icons: 0,
            inode: 0,
            links: 0,
            modified: 0,
            changed: 0,
            blocksize: 0,
            time: None,
            accessed: 0,
            created: 0,
            time_style: None,
            hyperlink: 0,
            no_permissions: 0,
            no_filesize: 0,
            no_user: 0,
            no_time: 0,
            no_icons: 0,
            no_git: 0,
            git_repos: 0,
            git_repos_no_status: 0,
            octal: 0,
            security_context: 0,
            extended: 0,
            help: Some(false),
            mount: 0,
            only_files: 0,
            no_quotes: 0,
        }
    }

    /// How often help was asked for.
    pub open spec fn spec_help_count(&self) -> u8 {
        if self.help == Some(true) {
            1
        } else {
            0
        }
    }

    /// How often the fields say that a flag occurred, all its spellings
    /// taken together. A value counts as one occurrence.
    pub open spec fn spec_count(&self, flag: Flag) -> nat {
        match flag {
            Flag::All => self.all as nat,
            Flag::AlmostAll => self.almost_all as nat,
            Flag::Git => self.git as nat,
            Flag::Oneline => self.oneline as nat,
            Flag::Long => self.long as nat,
            Flag::Tree => self.tree as nat,
            Flag::Grid => self.grid as nat,
            Flag::Across => self.across as nat,
            Flag::Recurse => self.recurse as nat,
            Flag::Classify => self.classify as nat,
            Flag::Dereference => self.dereference as nat,
            Flag::Width => present(self.width is Some),
            Flag::Color => present(self.color is Some) + present(self.colour is Some),
            Flag::ColorScale => self.color_scale as nat + self.colour_scale as nat,
            Flag::ListDirs => self.list_dirs as nat,
            Flag::Level => present(self.level is Some),
            Flag::Reverse => self.reverse as nat,
            Flag::Sort => present(self.sort is Some),
            Flag::IgnoreGlob => present(self.ignore_glob is Some),
            Flag::GitIgnore => self.git_ignore as nat,
            Flag::DirsFirst => self.dirs_first as nat,
            Flag::OnlyDirs => self.only_dirs as nat,
            Flag::OnlyFiles => self.only_files as nat,
            Flag::Binary => self.binary as nat,
            Flag::Bytes => self.bytes as nat,
            Flag::Group => self.group as nat,
            Flag::Numeric => self.numeric as nat,
            Flag::Header => self.header as nat,
            Flag::Icons => self.icons as nat,
            Flag::Inode => self.inode as nat,
            Flag::Links => self.links as nat,
            Flag::Modified => self.modified as nat,
            Flag::Changed => self.changed as nat,
            Flag::Accessed => self.accessed as nat,
            Flag::Created => self.created as nat,
            Flag::Blocksize => self.blocksize as nat,
            Flag::Time => present(self.time is Some),
            Flag::TimeStyle => present(self.time_style is Some),
            Flag::Hyperlink => self.hyperlink as nat,
            Flag::NoPermissions => self.no_permissions as nat,
            Flag::NoFilesize => self.no_filesize as nat,
            Flag::NoUser => self.no_user as nat,
            Flag::NoTime => self.no_time as nat,
            Flag::NoIcons => self.no_icons as nat,
            Flag::NoGit => self.no_git as nat,
            Flag::NoQuotes => self.no_quotes as nat,
            Flag::GitRepos => self.git_repos as nat,
            Flag::GitReposNoStatus => self.git_repos_no_status as nat,
            Flag::Octal => self.octal as nat,
            Flag::SecurityContext => self.security_context as nat,
            Flag::Extended => self.extended as nat,
            Flag::Mount => self.mount as nat,
            Flag::Help => self.spec_help_count() as nat,
        }
    }

    /// The value that the fields hold for a flag. Of two spellings that
    /// both came with a value, the variant's value is kept.
    pub open spec fn spec_value(&self, flag: Flag) -> Option<Seq<char>> {
        match flag {
            Flag::Width => optional_digits(self.width),
            Flag::Color => if self.colour is Some {
                optional_text(self.colour)
            } else {
                optional_text(self.color)
            },
            Flag::Level => optional_digits(self.level),
            Flag::Sort => optional_text(self.sort),
            Flag::IgnoreGlob => optional_text(self.ignore_glob),
            Flag::Time => optional_text(self.time),
            Flag::TimeStyle => optional_text(self.time_style),
            _ => None,
        }
    }

    /// Whether the flag is one of those that choose the display.
    pub open spec fn is_display_flag(flag: Flag) -> bool {
        match flag {
            Flag::Oneline
            | Flag::Long
            | Flag::Tree
            | Flag::Grid
            | Flag::Across
            | Flag::Recurse
            | Flag::Classify
            | Flag::Dereference
            | Flag::Width => true,
            _ => false,
        }
    }

    /// The occurrences so far, followed by those of the display
    /// fields, in the order of the fields.
    pub open spec fn spec_display_occurrences(
        &self,
        so_far: Seq<OccurrenceView>,
    ) -> Seq<OccurrenceView> {
        so_far
            + counted("oneline"@, self.oneline)
            + counted("long"@, self.long)
            + counted("tree"@, self.tree)
            + counted("grid"@, self.grid)
            + counted("across"@, self.across)
            + counted("recurse"@, self.recurse)
            + counted("classify"@, self.classify)
            + counted("dereference"@, self.dereference)
            + valued("width"@, optional_digits(self.width))
    }

    /// Lists the occurrences of the display fields.
    fn push_display_occurrences(&self, list: &mut Vec<Occurrence>)
        ensures
            occurrence_views(final(list)@) == self.spec_display_occurrences(
                occurrence_views(old(list)@),
            ),
    {
        push_counted(list, "oneline", self.oneline);
        push_counted(list, "long", self.long);
        push_counted(list, "tree", self.tree);
        push_counted(list, "grid", self.grid);
        push_counted(list, "across", self.across);
        push_counted(list, "recurse", self.recurse);
        push_counted(list, "classify", self.classify);
        push_counted(list, "dereference", self.dereference);
        push_valued(list, "width", digits_of(self.width));
    }

    /// The display fields add what they say of their own flags,
    /// and nothing of any other flag.
    #[verifier::rlimit(50)]
    proof fn lemma_display_fields(&self, so_far: Seq<OccurrenceView>, flag: Flag)
        ensures
            BagView::total(self.spec_display_occurrences(so_far), flag) == BagView::total(
                so_far,
                flag,
            ) + if Opts::is_display_flag(flag) {
                self.spec_count(flag)
            } else {
                0
            },
            BagView::last_value(self.spec_display_occurrences(so_far), flag)
                == if Opts::is_display_flag(flag) && self.spec_value(flag) is Some {
                self.spec_value(flag)
            } else {
                BagView::last_value(so_far, flag)
            },
    {
        lemma_every_spelling_resolves();
        let s0 = so_far;
        lemma_counted(s0, "oneline"@, self.oneline, Flag::Oneline, flag);
        let s1 = s0 + counted("oneline"@, self.oneline);
        lemma_counted(s1, "long"@, self.long, Flag::Long, flag);
        let s2 = s1 + counted("long"@, self.long);
        lemma_counted(s2, "tree"@, self.tree, Flag::Tree, flag);
        let s3 = s2 + counted("tree"@, self.tree);
        lemma_counted(s3, "grid"@, self.grid, Flag::Grid, flag);
        let s4 = s3 + counted("grid"@, self.grid);
        lemma_counted(s4, "across"@, self.across, Flag::Across, flag);
        let s5 = s4 + counted("across"@, self.across);
        lemma_counted(s5, "recurse"@, self.recurse, Flag::Recurse, flag);
        let s6 = s5 + counted("recurse"@, self.recurse);
        lemma_counted(s6, "classify"@, self.classify, Flag::Classify, flag);
        let s7 = s6 + counted("classify"@, self.classify);
        lemma_counted(s7, "dereference"@, self.dereference, Flag::Dereference, flag);
        let s8 = s7 + counted("dereference"@, self.dereference);
        lemma_valued(s8, "width"@, optional_digits(self.width), Flag::Width, flag);
    }

    /// Whether the flag is one of those that choose colours, icons and decoration.
    pub open spec fn is_theme_flag(flag: Flag) -> bool {
        match flag {
            Flag::Color
            | Flag::ColorScale
            | Flag::Icons
            | Flag::NoIcons
            | Flag::Hyperlink
            | Flag::NoQuotes => true,
            _ => false,
        }
    }

    /// The occurrences so far, followed by those of the decoration
    /// fields, in the order of the fields.
    pub open spec fn spec_theme_occurrences(
        &self,
        so_far: Seq<OccurrenceView>,
    ) -> Seq<OccurrenceView> {
        so_far
            + valued("color"@, optional_text(self.color))
            + valued("colour"@, optional_text(self.colour))
            + counted("color-scale"@, self.color_scale)
            + counted("colour-scale"@, self.colour_scale)
            + counted("icons"@, self.icons)
            + counted("no-icons"@, self.no_icons)
            + counted("hyperlink"@, self.hyperlink)
            + counted("no-quotes"@, self.no_quotes)
    }

    /// Lists the occurrences of the decoration fields.
    fn push_theme_occurrences(&self, list: &mut Vec<Occurrence>)
        ensures
            occurrence_views(final(list)@) == self.spec_theme_occurrences(
                occurrence_views(old(list)@),
            ),
    {
        push_valued(list, "color", copy_of(&self.color));
        push_valued(list, "colour", copy_of(&self.colour));
        push_counted(list, "color-scale", self.color_scale);
        push_counted(list, "colour-scale", self.colour_scale);
        push_counted(list, "icons", self.icons);
        push_counted(list, "no-icons", self.no_icons);
        push_counted(list, "hyperlink", self.hyperlink);
        push_counted(list, "no-quotes", self.no_quotes);
    }

    /// The decoration fields add what they say of their own flags,
    /// and nothing of any other flag.
    #[verifier::rlimit(50)]
    proof fn lemma_theme_fields(&self, so_far: Seq<OccurrenceView>, flag: Flag)
        ensures
            BagView::total(self.spec_theme_occurrences(so_far), flag) == BagView::total(
                so_far,
                flag,
            ) + if Opts::is_theme_flag(flag) {
                self.spec_count(flag)
            } else {
                0
            },
            BagView::last_value(self.spec_theme_occurrences(so_far), flag)
                == if Opts::is_theme_flag(flag) && self.spec_value(flag) is Some {
                self.spec_value(flag)
            } else {
                BagView::last_value(so_far, flag)
            },
    {
        lemma_every_spelling_resolves();
        let s0 = so_far;
        lemma_valued(s0, "color"@, optional_text(self.color), Flag::Color, flag);
        let s1 = s0 + valued("color"@, optional_text(self.color));
        lemma_valued(s1, "colour"@, optional_text(self.colour), Flag::Color, flag);
        let s2 = s1 + valued("colour"@, optional_text(self.colour));
        lemma_counted(s2, "color-scale"@, self.color_scale, Flag::ColorScale, flag);
        let s3 = s2 + counted("color-scale"@, self.color_scale);
        lemma_counted(s3, "colour-scale"@, self.colour_scale, Flag::ColorScale, flag);
        let s4 = s3 + counted("colour-scale"@, self.colour_scale);
        lemma_counted(s4, "icons"@, self.icons, Flag::Icons, flag);
        let s5 = s4 + counted("icons"@, self.icons);
        lemma_counted(s5, "no-icons"@, self.no_icons, Flag::NoIcons, flag);
        let s6 = s5 + counted("no-icons"@, self.no_icons);
        lemma_counted(s6, "hyperlink"@, self.hyperlink, Flag::Hyperlink, flag);
        let s7 = s6 + counted("hyperlink"@, self.hyperlink);
        lemma_counted(s7, "no-quotes"@, self.no_quotes, Flag::NoQuotes, flag);
    }

    /// Whether the flag is one of those that filter or sort.
    pub open spec fn is_filtering_flag(flag: Flag) -> bool {
        match flag {
            Flag::All
            | Flag::AlmostAll
            | Flag::ListDirs
            | Flag::Level
            | Flag::Reverse
            | Flag::Sort
            | Flag::IgnoreGlob
            | Flag::GitIgnore
            | Flag::DirsFirst
            | Flag::OnlyDirs
            | Flag::OnlyFiles => true,
            _ => false,
        }
    }

    /// The occurrences so far, followed by those of the filtering and sorting
    /// fields, in the order of the fields.
    pub open spec fn spec_filtering_occurrences(
        &self,
        so_far: Seq<OccurrenceView>,
    ) -> Seq<OccurrenceView> {
        so_far
            + counted("all"@, self.all)
            + counted("almost-all"@, self.almost_all)
            + counted("list-dirs"@, self.list_dirs)
            + valued("level"@, optional_digits(self.level))
            + counted("reverse"@, self.reverse)
            + valued("sort"@, optional_text(self.sort))
            + valued("ignore-glob"@, optional_text(self.ignore_glob))
            + counted("git-ignore"@, self.git_ignore)
            + counted("group-directories-first"@, self.dirs_first)
            + counted("only-dirs"@, self.only_dirs)
            + counted("only-files"@, self.only_files)
    }

    /// Lists the occurrences of the filtering and sorting fields.
    fn push_filtering_occurrences(&self, list: &mut Vec<Occurrence>)
        ensures
            occurrence_views(final(list)@) == self.spec_filtering_occurrences(
                occurrence_views(old(list)@),
            ),
    {
        push_counted(list, "all", self.all);
        push_counted(list, "almost-all", self.almost_all);
        push_counted(list, "list-dirs", self.list_dirs);
        push_valued(list, "level", digits_of(self.level));
        push_counted(list, "reverse", self.reverse);
        push_valued(list, "sort", copy_of(&self.sort));
        push_valued(list, "ignore-glob", copy_of(&self.ignore_glob));
        push_counted(list, "git-ignore", self.git_ignore);
        push_counted(list, "group-directories-first", self.dirs_first);
        push_counted(list, "only-dirs", self.only_dirs);
        push_counted(list, "only-files", self.only_files);
    }

    /// The filtering and sorting fields add what they say of their own flags,
    /// and nothing of any other flag.
    #[verifier::rlimit(50)]
    proof fn lemma_filtering_fields(&self, so_far: Seq<OccurrenceView>, flag: Flag)
        ensures
            BagView::total(self.spec_filtering_occurrences(so_far), flag) == BagView::total(
                so_far,
                flag,
            ) + if Opts::is_filtering_flag(flag) {
                self.spec_count(flag)
            } else {
                0
            },
            BagView::last_value(self.spec_filtering_occurrences(so_far), flag)
                == if Opts::is_filtering_flag(flag) && self.spec_value(flag) is Some {
                self.spec_value(flag)
            } else {
                BagView::last_value(so_far, flag)
            },
    {
        lemma_every_spelling_resolves();
        let s0 = so_far;
        lemma_counted(s0, "all"@, self.all, Flag::All, flag);
        let s1 = s0 + counted("all"@, self.all);
        lemma_counted(s1, "almost-all"@, self.almost_all, Flag::AlmostAll, flag);
        let s2 = s1 + counted("almost-all"@, self.almost_all);
        lemma_counted(s2, "list-dirs"@, self.list_dirs, Flag::ListDirs, flag);
        let s3 = s2 + counted("list-dirs"@, self.list_dirs);
        lemma_valued(s3, "level"@, optional_digits(self.level), Flag::Level, flag);
        let s4 = s3 + valued("level"@, optional_digits(self.level));
        lemma_counted(s4, "reverse"@, self.reverse, Flag::Reverse, flag);
        let s5 = s4 + counted("reverse"@, self.reverse);
        lemma_valued(s5, "sort"@, optional_text(self.sort), Flag::Sort, flag);
        let s6 = s5 + valued("sort"@, optional_text(self.sort));
        lemma_valued(s6, "ignore-glob"@, optional_text(self.ignore_glob), Flag::IgnoreGlob, flag);
        let s7 = s6 + valued("ignore-glob"@, optional_text(self.ignore_glob));
        lemma_counted(s7, "git-ignore"@, self.git_ignore, Flag::GitIgnore, flag);
        let s8 = s7 + counted("git-ignore"@, self.git_ignore);
        lemma_counted(s8, "group-directories-first"@, self.dirs_first, Flag::DirsFirst, flag);
        let s9 = s8 + counted("group-directories-first"@, self.dirs_first);
        lemma_counted(s9, "only-dirs"@, self.only_dirs, Flag::OnlyDirs, flag);
        let s10 = s9 + counted("only-dirs"@, self.only_dirs);
        lemma_counted(s10, "only-files"@, self.only_files, Flag::OnlyFiles, flag);
    }

    /// Whether the flag is one of those that add to the long view.
    pub open spec fn is_columns_flag(flag: Flag) -> bool {
        match flag {
            Flag::Binary
            | Flag::Bytes
            | Flag::Group
            | Flag::Numeric
            | Flag::Header
            | Flag::Inode
            | Flag::Links
            | Flag::Blocksize
            | Flag::Octal
            | Flag::Mount => true,
            _ => false,
        }
    }

    /// The occurrences so far, followed by those of the column
    /// fields, in the order of the fields.
    pub open spec fn spec_columns_occurrences(
        &self,
        so_far: Seq<OccurrenceView>,
    ) -> Seq<OccurrenceView> {
        so_far
            + counted("binary"@, self.binary)
            + counted("bytes"@, self.bytes)
            + counted("group"@, self.group)
            + counted("numeric"@, self.numeric)
            + counted("header"@, self.header)
            + counted("inode"@, self.inode)
            + counted("links"@, self.links)
            + counted("blocksize"@, self.blocksize)
            + counted("octal"@, self.octal)
            + counted("mount"@, self.mount)
    }

    /// Lists the occurrences of the column fields.
    fn push_columns_occurrences(&self, list: &mut Vec<Occurrence>)
        ensures
            occurrence_views(final(list)@) == self.spec_columns_occurrences(
                occurrence_views(old(list)@),
            ),
    {
        push_counted(list, "binary", self.binary);
        push_counted(list, "bytes", self.bytes);
        push_counted(list, "group", self.group);
        push_counted(list, "numeric", self.numeric);
        push_counted(list, "header", self.header);
        push_counted(list, "inode", self.inode);
        push_counted(list, "links", self.links);
        push_counted(list, "blocksize", self.blocksize);
        push_counted(list, "octal", self.octal);
        push_counted(list, "mount", self.mount);
    }

    /// The column fields add what they say of their own flags,
    /// and nothing of any other flag.
    #[verifier::rlimit(50)]
    proof fn lemma_columns_fields(&self, so_far: Seq<OccurrenceView>, flag: Flag)
        ensures
            BagView::total(self.spec_columns_occurrences(so_far), flag) == BagView::total(
                so_far,
                flag,
            ) + if Opts::is_columns_flag(flag) {
                self.spec_count(flag)
            } else {
                0
            },
            BagView::last_value(self.spec_columns_occurrences(so_far), flag)
                == if Opts::is_columns_flag(flag) && self.spec_value(flag) is Some {
                self.spec_value(flag)
            } else {
                BagView::last_value(so_far, flag)
            },
    {
        lemma_every_spelling_resolves();
        let s0 = so_far;
        lemma_counted(s0, "binary"@, self.binary, Flag::Binary, flag);
        let s1 = s0 + counted("binary"@, self.binary);
        lemma_counted(s1, "bytes"@, self.bytes, Flag::Bytes, flag);
        let s2 = s1 + counted("bytes"@, self.bytes);
        lemma_counted(s2, "group"@, self.group, Flag::Group, flag);
        let s3 = s2 + counted("group"@, self.group);
        lemma_counted(s3, "numeric"@, self.numeric, Flag::Numeric, flag);
        let s4 = s3 + counted("numeric"@, self.numeric);
        lemma_counted(s4, "header"@, self.header, Flag::Header, flag);
        let s5 = s4 + counted("header"@, self.header);
        lemma_counted(s5, "inode"@, self.inode, Flag::Inode, flag);
        let s6 = s5 + counted("inode"@, self.inode);
        lemma_counted(s6, "links"@, self.links, Flag::Links, flag);
        let s7 = s6 + counted("links"@, self.links);
        lemma_counted(s7, "blocksize"@, self.blocksize, Flag::Blocksize, flag);
        let s8 = s7 + counted("blocksize"@, self.blocksize);
        lemma_counted(s8, "octal"@, self.octal, Flag::Octal, flag);
        let s9 = s8 + counted("octal"@, self.octal);
        lemma_counted(s9, "mount"@, self.mount, Flag::Mount, flag);
    }

    /// Whether the flag is one of those that take a column from the long view.
    pub open spec fn is_suppression_flag(flag: Flag) -> bool {
        match flag {
            Flag::NoPermissions
            | Flag::NoFilesize
            | Flag::NoUser
            | Flag::NoTime => true,
            _ => false,
        }
    }

    /// The occurrences so far, followed by those of the suppression
    /// fields, in the order of the fields.
    pub open spec fn spec_suppression_occurrences(
        &self,
        so_far: Seq<OccurrenceView>,
    ) -> Seq<OccurrenceView> {
        so_far
            + counted("no-permissions"@, self.no_permissions)
            + counted("no-filesize"@, self.no_filesize)
            + counted("no-user"@, self.no_user)
            + counted("no-time"@, self.no_time)
    }

    /// Lists the occurrences of the suppression fields.
    fn push_suppression_occurrences(&self, list: &mut Vec<Occurrence>)
        ensures
            occurrence_views(final(list)@) == self.spec_suppression_occurrences(
                occurrence_views(old(list)@),
            ),
    {
        push_counted(list, "no-permissions", self.no_permissions);
        push_counted(list, "no-filesize", self.no_filesize);
        push_counted(list, "no-user", self.no_user);
        push_counted(list, "no-time", self.no_time);
    }

    /// The suppression fields add what they say of their own flags,
    /// and nothing of any other flag.
    #[verifier::rlimit(50)]
    proof fn lemma_suppression_fields(&self, so_far: Seq<OccurrenceView>, flag: Flag)
        ensures
            BagView::total(self.spec_suppression_occurrences(so_far), flag) == BagView::total(
                so_far,
                flag,
            ) + if Opts::is_suppression_flag(flag) {
                self.spec_count(flag)
            } else {
                0
            },
            BagView::last_value(self.spec_suppression_occurrences(so_far), flag)
                == if Opts::is_suppression_flag(flag) && self.spec_value(flag) is Some {
                self.spec_value(flag)
            } else {
                BagView::last_value(so_far, flag)
            },
    {
        lemma_every_spelling_resolves();
        let s0 = so_far;
        lemma_counted(s0, "no-permissions"@, self.no_permissions, Flag::NoPermissions, flag);
        let s1 = s0 + counted("no-permissions"@, self.no_permissions);
        lemma_counted(s1, "no-filesize"@, self.no_filesize, Flag::NoFilesize, flag);
        let s2 = s1 + counted("no-filesize"@, self.no_filesize);
        lemma_counted(s2, "no-user"@, self.no_user, Flag::NoUser, flag);
        let s3 = s2 + counted("no-user"@, self.no_user);
        lemma_counted(s3, "no-time"@, self.no_time, Flag::NoTime, flag);
    }

    /// Whether the flag is one of those that choose a timestamp.
    pub open spec fn is_timestamps_flag(flag: Flag) -> bool {
        match flag {
            Flag::Modified
            | Flag::Changed
            | Flag::Time
            | Flag::Accessed
            | Flag::Created
            | Flag::TimeStyle => true,
            _ => false,
        }
    }

    /// The occurrences so far, followed by those of the timestamp
    /// fields, in the order of the fields.
    pub open spec fn spec_timestamps_occurrences(
        &self,
        so_far: Seq<OccurrenceView>,
    ) -> Seq<OccurrenceView> {
        so_far
            + counted("modified"@, self.modified)
            + counted("changed"@, self.changed)
            + valued("time"@, optional_text(self.time))
            + counted("accessed"@, self.accessed)
            + counted("created"@, self.created)
            + valued("time-style"@, optional_text(self.time_style))
    }

    /// Lists the occurrences of the timestamp fields.
    fn push_timestamps_occurrences(&self, list: &mut Vec<Occurrence>)
        ensures
            occurrence_views(final(list)@) == self.spec_timestamps_occurrences(
                occurrence_views(old(list)@),
            ),
    {
        push_counted(list, "modified", self.modified);
        push_counted(list, "changed", self.changed);
        push_valued(list, "time", copy_of(&self.time));
        push_counted(list, "accessed", self.accessed);
        push_counted(list, "created", self.created);
        push_valued(list, "time-style", copy_of(&self.time_style));
    }

    /// The timestamp fields add what they say of their own flags,
    /// and nothing of any other flag.
    #[verifier::rlimit(50)]
    proof fn lemma_timestamps_fields(&self, so_far: Seq<OccurrenceView>, flag: Flag)
        ensures
            BagView::total(self.spec_timestamps_occurrences(so_far), flag) == BagView::total(
                so_far,
                flag,
            ) + if Opts::is_timestamps_flag(flag) {
                self.spec_count(flag)
            } else {
                0
            },
            BagView::last_value(self.spec_timestamps_occurrences(so_far), flag)
                == if Opts::is_timestamps_flag(flag) && self.spec_value(flag) is Some {
                self.spec_value(flag)
            } else {
                BagView::last_value(so_far, flag)
            },
    {
        lemma_every_spelling_resolves();
        let s0 = so_far;
        lemma_counted(s0, "modified"@, self.modified, Flag::Modified, flag);
        let s1 = s0 + counted("modified"@, self.modified);
        lemma_counted(s1, "changed"@, self.changed, Flag::Changed, flag);
        let s2 = s1 + counted("changed"@, self.changed);
        lemma_valued(s2, "time"@, optional_text(self.time), Flag::Time, flag);
        let s3 = s2 + valued("time"@, optional_text(self.time));
        lemma_counted(s3, "accessed"@, self.accessed, Flag::Accessed, flag);
        let s4 = s3 + counted("accessed"@, self.accessed);
        lemma_counted(s4, "created"@, self.created, Flag::Created, flag);
        let s5 = s4 + counted("created"@, self.created);
        lemma_valued(s5, "time-style"@, optional_text(self.time_style), Flag::TimeStyle, flag);
    }

    /// Whether the flag is one of those that need an optional subsystem or ask for help.
    pub open spec fn is_extras_flag(flag: Flag) -> bool {
        match flag {
            Flag::Git
            | Flag::NoGit
            | Flag::GitRepos
            | Flag::GitReposNoStatus
            | Flag::SecurityContext
            | Flag::Extended
            | Flag::Help => true,
            _ => false,
        }
    }

    /// The occurrences so far, followed by those of the subsystem and help
    /// fields, in the order of the fields.
    pub open spec fn spec_extras_occurrences(
        &self,
        so_far: Seq<OccurrenceView>,
    ) -> Seq<OccurrenceView> {
        so_far
            + counted("git"@, self.git)
            + counted("no-git"@, self.no_git)
            + counted("git-repos"@, self.git_repos)
            + counted("git-repos-no-status"@, self.git_repos_no_status)
            + counted("context"@, self.security_context)
            + counted("extended"@, self.extended)
            + counted("help"@, self.spec_help_count())
    }

    /// Lists the occurrences of the subsystem and help fields.
    fn push_extras_occurrences(&self, list: &mut Vec<Occurrence>)
        ensures
            occurrence_views(final(list)@) == self.spec_extras_occurrences(
                occurrence_views(old(list)@),
            ),
    {
        push_counted(list, "git", self.git);
        push_counted(list, "no-git", self.no_git);
        push_counted(list, "git-repos", self.git_repos);
        push_counted(list, "git-repos-no-status", self.git_repos_no_status);
        push_counted(list, "context", self.security_context);
        push_counted(list, "extended", self.extended);
        let help: u8 = if matches!(self.help, Some(true)) {
            1
        } else {
            0
        };
        push_counted(list, "help", help);
    }

    /// The subsystem and help fields add what they say of their own flags,
    /// and nothing of any other flag.
    #[verifier::rlimit(50)]
    proof fn lemma_extras_fields(&self, so_far: Seq<OccurrenceView>, flag: Flag)
        ensures
            BagView::total(self.spec_extras_occurrences(so_far), flag) == BagView::total(
                so_far,
                flag,
            ) + if Opts::is_extras_flag(flag) {
                self.spec_count(flag)
            } else {
                0
            },
            BagView::last_value(self.spec_extras_occurrences(so_far), flag)
                == if Opts::is_extras_flag(flag) && self.spec_value(flag) is Some {
                self.spec_value(flag)
            } else {
                BagView::last_value(so_far, flag)
            },
    {
        lemma_every_spelling_resolves();
        let s0 = so_far;
        lemma_counted(s0, "git"@, self.git, Flag::Git, flag);
        let s1 = s0 + counted("git"@, self.git);
        lemma_counted(s1, "no-git"@, self.no_git, Flag::NoGit, flag);
        let s2 = s1 + counted("no-git"@, self.no_git);
        lemma_counted(s2, "git-repos"@, self.git_repos, Flag::GitRepos, flag);
        let s3 = s2 + counted("git-repos"@, self.git_repos);
        lemma_counted(
            s3,
            "git-repos-no-status"@,
            self.git_repos_no_status,
            Flag::GitReposNoStatus,
            flag,
        );
        let s4 = s3 + counted("git-repos-no-status"@, self.git_repos_no_status);
        lemma_counted(s4, "context"@, self.security_context, Flag::SecurityContext, flag);
        let s5 = s4 + counted("context"@, self.security_context);
        lemma_counted(s5, "extended"@, self.extended, Flag::Extended, flag);
        let s6 = s5 + counted("extended"@, self.extended);
        lemma_counted(s6, "help"@, self.spec_help_count(), Flag::Help, flag);
    }

    /// The flag occurrences that the fields stand for, group by group. A
    /// spelling variant comes after the spelling that it varies.
    pub open spec fn spec_occurrences(&self) -> Seq<OccurrenceView> {
        let none = Seq::<OccurrenceView>::empty();
        let display = self.spec_display_occurrences(none);
        let theme = self.spec_theme_occurrences(display);
        let filtering = self.spec_filtering_occurrences(theme);
        let columns = self.spec_columns_occurrences(filtering);
        let suppression = self.spec_suppression_occurrences(columns);
        let timestamps = self.spec_timestamps_occurrences(suppression);
        let extras = self.spec_extras_occurrences(timestamps);
        extras
    }

    /// The bag of the fields holds, for every flag, what the fields say of
    /// it: the counts of all its spellings added up, and its value.
    pub proof fn lemma_fields_add_up(&self, flag: Flag)
        ensures
            BagView::of(self.spec_occurrences()).count(flag) == self.spec_count(flag),
            BagView::of(self.spec_occurrences()).value(flag) == self.spec_value(flag),
    {
        lemma_bag_sums_counts_and_keeps_last_value(self.spec_occurrences(), flag);
        let none = Seq::<OccurrenceView>::empty();
        self.lemma_display_fields(none, flag);
        let display = self.spec_display_occurrences(none);
        self.lemma_theme_fields(display, flag);
        let theme = self.spec_theme_occurrences(display);
        self.lemma_filtering_fields(theme, flag);
        let filtering = self.spec_filtering_occurrences(theme);
        self.lemma_columns_fields(filtering, flag);
        let columns = self.spec_columns_occurrences(filtering);
        self.lemma_suppression_fields(columns, flag);
        let suppression = self.spec_suppression_occurrences(columns);
        self.lemma_timestamps_fields(suppression, flag);
        let timestamps = self.spec_timestamps_occurrences(suppression);
        self.lemma_extras_fields(timestamps, flag);
    }

    /// Which spelling of a flag a field belongs to makes no difference: two
    /// command lines whose fields say the same of every flag give the same
    /// bag.
    pub proof fn lemma_either_spelling(&self, other: &Opts)
        requires
            forall|flag: Flag| #[trigger] self.spec_count(flag) == other.spec_count(flag),
            forall|flag: Flag| #[trigger] self.spec_value(flag) == other.spec_value(flag),
        ensures
            BagView::of(self.spec_occurrences()) == BagView::of(other.spec_occurrences()),
    {
        let a = self.spec_occurrences();
        let b = other.spec_occurrences();
        assert forall|flag: Flag| #[trigger] BagView::total(a, flag) == BagView::total(b, flag) by {
            self.lemma_fields_add_up(flag);
            other.lemma_fields_add_up(flag);
            lemma_bag_sums_counts_and_keeps_last_value(a, flag);
            lemma_bag_sums_counts_and_keeps_last_value(b, flag);
            assert(self.spec_count(flag) == other.spec_count(flag));
        }
        assert forall|flag: Flag| #[trigger]
            BagView::last_value(a, flag) == BagView::last_value(b, flag) by {
            self.lemma_fields_add_up(flag);
            other.lemma_fields_add_up(flag);
            lemma_bag_sums_counts_and_keeps_last_value(a, flag);
            lemma_bag_sums_counts_and_keeps_last_value(b, flag);
            assert(self.spec_value(flag) == other.spec_value(flag));
        }
        lemma_same_totals_same_bag(a, b);
    }

    /// Lists the flag occurrences that the fields stand for.
    ///
    /// A count above zero is one occurrence with that count. A value is one
    /// occurrence with that value; a number is written in decimal digits.
    pub fn occurrences(&self) -> (occurrences: Vec<Occurrence>)
        ensures
            occurrence_views(occurrences@) == self.spec_occurrences(),
    {
        let mut list: Vec<Occurrence> = Vec::new();
        assert(occurrence_views(list@) =~= Seq::<OccurrenceView>::empty());
        self.push_display_occurrences(&mut list);
        self.push_theme_occurrences(&mut list);
        self.push_filtering_occurrences(&mut list);
        self.push_columns_occurrences(&mut list);
        self.push_suppression_occurrences(&mut list);
        self.push_timestamps_occurrences(&mut list);
        self.push_extras_occurrences(&mut list);
        list
    }

    /// Gathers the fields into a bag of flags.
    ///
    /// The bag holds, for every flag, the counts of all its spellings added
    /// up, and its value.
    pub fn matched_flags(&self) -> (bag: FlagBag)
        ensures
            bag@ == BagView::of(self.spec_occurrences()),
            forall|flag: Flag| #[trigger] bag@.count(flag) == self.spec_count(flag),
            forall|flag: Flag| #[trigger] bag@.value(flag) == self.spec_value(flag),
    {
        let occurrences = self.occurrences();
        proof {
            assert forall|flag: Flag|
                BagView::of(self.spec_occurrences()).count(flag) == self.spec_count(flag)
                    && BagView::of(self.spec_occurrences()).value(flag) == self.spec_value(
                    flag,
                ) by {
                self.lemma_fields_add_up(flag);
            }
        }
        FlagBag::from_occurrences(&occurrences)
    }
}

} // verus!
