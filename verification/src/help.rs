//! The help text and the request for it.
//!
//! The help text is an ordered concatenation of sections, closed by one
//! empty line. Which sections a build shows depends only on the optional
//! subsystems it contains, never on the flags of the invocation.

use crate::bag::FlagBag;
use crate::features::Features;
use crate::flags::Flag;
use vstd::prelude::*;
use vstd::string::*;

verus! {

/// How the tool is called. The line break at its end leaves a line empty
/// before the next section.
pub const USAGE: &'static str = "Usage:
  eza [options] [files...]
";

/// The options about the tool itself, and an empty line.
pub const META_OPTIONS: &'static str = "META OPTIONS
  --help                     show list of command-line options
  -v, --version              show version of eza
";

/// The display options, and two empty lines.
pub const DISPLAY_OPTIONS: &'static str = "DISPLAY OPTIONS
  -1, --oneline              display one entry per line
  -l, --long                 display extended file metadata as a table
  -G, --grid                 display entries as a grid (default)
  -x, --across               sort the grid across, rather than downwards
  -R, --recurse              recurse into directories
  -T, --tree                 recurse into directories as a tree
  -X, --dereference          dereference symbolic links when displaying information
  -F, --classify             display type indicator by file names
  --colo[u]r=WHEN            when to use terminal colours (always, auto, never)
  --colo[u]r-scale           highlight levels of 'field' distinctly(all, age, size)
  --colo[u]r-scale-mode      use gradient or fixed colors in --color-scale (fixed, gradient)
  --icons=WHEN               when to display icons (always, auto, never)
  --no-quotes                don't quote file names with spaces
  --hyperlink                display entries as hyperlinks
  -w, --width COLS           set screen width in columns
  --smart-group              only show group if it has a different name from owner

";

/// The filtering and sorting options that every build has.
pub const FILTERING_OPTIONS: &'static str = "FILTERING AND SORTING OPTIONS
  -a, --all                  show hidden and 'dot' files. Use this twice to also
                             show the '.' and '..' directories
  -A, --almost-all           equivalent to --all; included for compatibility with `ls -A`
  -d, --list-dirs            list directories as files; don't list their contents
  -L, --level DEPTH          limit the depth of recursion
  -r, --reverse              reverse the sort order
  -s, --sort SORT_FIELD      which field to sort by
  --group-directories-first  list directories before other files
  -D, --only-dirs            list only directories
  -f, --only-files           list only files
  -I, --ignore-glob GLOBS    glob patterns (pipe-separated) of files to ignore";

/// The filtering option that needs Git support.
pub const GIT_FILTER_HELP: &'static str = "  --git-ignore               ignore files mentioned in '.gitignore'";

/// The words that name a sort field, and an empty line.
pub const SORT_FIELDS: &'static str = "  Valid sort fields:         name, Name, extension, Extension, size, type,
                             modified, accessed, created, inode, and none.
                             date, time, old, and new all refer to modified.
";

/// The options of the long view that every build has.
pub const LONG_VIEW_OPTIONS: &'static str = "LONG VIEW OPTIONS
  -b, --binary               list file sizes with binary prefixes
  -B, --bytes                list file sizes in bytes, without any prefixes
  -g, --group                list each file's group
  -h, --header               add a header row to each column
  -H, --links                list each file's number of hard links
  -i, --inode                list each file's inode number
  -m, --modified             use the modified timestamp field
  -M, --mounts               show mount details (Linux and MacOS only)
  -n, --numeric              list numeric user and group IDs
  -S, --blocksize            show size of allocated file system blocks
  -t, --time FIELD           which timestamp field to list (modified, accessed, created)
  -u, --accessed             use the accessed timestamp field
  -U, --created              use the created timestamp field
  --changed                  use the changed timestamp field
  --time-style               how to format timestamps (default, iso, long-iso,
                             full-iso, relative, or a custom style with '+' as
                             prefix. Ex: '+%Y/%m/%d')
  --total-size               show the size of a directory as the size of all
                             files and directories inside
  --no-permissions           suppress the permissions field
  -o, --octal-permissions    list each file's permission in octal format
  --no-filesize              suppress the filesize field
  --no-user                  suppress the user field
  --no-time                  suppress the time field";

/// The options of the long view that need Git support.
pub const GIT_VIEW_HELP: &'static str = "  --git                      list each file's Git status, if tracked or ignored
  --no-git                   suppress Git status (always overrides --git,
                             --git-repos, --git-repos-no-status)
  --git-repos                list root of git-tree status";

/// The option that lists extended attributes.
pub const EXTENDED_HELP: &'static str = "  -@, --extended             list each file's extended attributes and sizes";

/// The option that lists security contexts.
pub const SECATTR_HELP: &'static str = "  -Z, --context              list each file's security context";

/// A section of the help text.
#[derive(Clone, Copy, Debug, PartialEq, Eq, Structural)]
pub enum Section {
    /// The usage header.
    Usage,
    /// The options about the tool itself.
    Meta,
    /// The display options.
    Display,
    /// The filtering and sorting options.
    Filtering,
    /// The filtering line that needs Git support.
    GitIgnore,
    /// The reference of sort fields.
    SortFields,
    /// The long view options.
    LongView,
    /// The view options that need Git support.
    GitView,
    /// The extended attributes line.
    Extended,
    /// The security context line.
    SecurityContext,
}

impl Section {
    /// The text of the section, without the line break that ends it.
    pub open spec fn spec_text(self) -> Seq<char> {
        match self {
            Section::Usage => USAGE@,
            Section::Meta => META_OPTIONS@,
            Section::Display => DISPLAY_OPTIONS@,
            Section::Filtering => FILTERING_OPTIONS@,
            Section::GitIgnore => GIT_FILTER_HELP@,
            Section::SortFields => SORT_FIELDS@,
            Section::LongView => LONG_VIEW_OPTIONS@,
            Section::GitView => GIT_VIEW_HELP@,
            Section::Extended => EXTENDED_HELP@,
            Section::SecurityContext => SECATTR_HELP@,
        }
    }

    /// The text of the section, without the line break that ends it.
    pub fn text(self) -> (text: &'static str)
        ensures
            text@ == self.spec_text(),
    {
        match self {
            Section::Usage => USAGE,
            Section::Meta => META_OPTIONS,
            Section::Display => DISPLAY_OPTIONS,
            Section::Filtering => FILTERING_OPTIONS,
            Section::GitIgnore => GIT_FILTER_HELP,
            Section::SortFields => SORT_FIELDS,
            Section::LongView => LONG_VIEW_OPTIONS,
            Section::GitView => GIT_VIEW_HELP,
            Section::Extended => EXTENDED_HELP,
            Section::SecurityContext => SECATTR_HELP,
        }
    }

    /// Whether a build with the given subsystems shows the section.
    pub open spec fn spec_included(self, features: Features) -> bool {
        match self {
            Section::GitIgnore | Section::GitView => features.git,
            Section::Extended | Section::SecurityContext => features.xattr,
            _ => true,
        }
    }

    /// Whether a build with the given subsystems shows the section.
    pub fn included(self, features: Features) -> (shown: bool)
        ensures
            shown == self.spec_included(features),
    {
        match self {
            Section::GitIgnore | Section::GitView => features.git,
            Section::Extended | Section::SecurityContext => features.xattr,
            _ => true,
        }
    }
}

/// Every section, in the order in which the help text shows them.
pub open spec fn all_sections() -> Seq<Section> {
    seq![
        Section::Usage,
        Section::Meta,
        Section::Display,
        Section::Filtering,
        Section::GitIgnore,
        Section::SortFields,
        Section::LongView,
        Section::GitView,
        Section::Extended,
        Section::SecurityContext,
    ]
}

/// The sections among the first `n` of [`all_sections`] that a build shows,
/// in that order.
pub open spec fn shown_among(features: Features, n: nat) -> Seq<Section>
    decreases n,
{
    if n == 0 {
        Seq::empty()
    } else {
        let section = all_sections()[n - 1];
        if section.spec_included(features) {
            shown_among(features, (n - 1) as nat).push(section)
        } else {
            shown_among(features, (n - 1) as nat)
        }
    }
}

/// The sections that a build shows, in order.
pub open spec fn spec_sections(features: Features) -> Seq<Section> {
    shown_among(features, all_sections().len())
}

/// The text of a sequence of sections: each section in turn, followed by a
/// line break.
pub open spec fn spec_render(sections: Seq<Section>) -> Seq<char>
    decreases sections.len(),
{
    if sections.len() == 0 {
        Seq::empty()
    } else {
        spec_render(sections.drop_last()) + sections.last().spec_text() + "\n"@
    }
}

/// The sections that a build shows, as text.
pub open spec fn spec_body(features: Features) -> Seq<char> {
    spec_render(spec_sections(features))
}

/// The help text of a build: its sections, and after the line break of the
/// last of them one empty line.
pub open spec fn spec_help_text(features: Features) -> Seq<char> {
    spec_body(features) + "\n"@
}

/// The request for the help text.
#[derive(Clone, Copy, Debug, PartialEq, Eq, Structural)]
pub struct HelpString;

impl HelpString {
    /// Determines whether help was asked for.
    ///
    /// Help is asked for exactly when the help flag occurs at least once;
    /// no other flag, well-formed or not, has a say.
    pub fn deduce(matches: &FlagBag) -> (help: Option<HelpString>)
        ensures
            help is Some <==> matches@.has(Flag::Help),
    {
        if matches.count(Flag::Help) > 0 {
            Some(HelpString)
        } else {
            None
        }
    }

    /// The sections that a build shows, in order.
    pub fn sections(features: Features) -> (sections: Vec<Section>)
        ensures
            sections@ == spec_sections(features),
    {
        let all = [
            Section::Usage,
            Section::Meta,
            Section::Display,
            Section::Filtering,
            Section::GitIgnore,
            Section::SortFields,
            Section::LongView,
            Section::GitView,
            Section::Extended,
            Section::SecurityContext,
        ];
        assert(all@ =~= all_sections());
        let mut sections: Vec<Section> = Vec::new();
        let mut i: usize = 0;
        while i < 10
            invariant
                i <= 10,
                all@ == all_sections(),
                sections@ == shown_among(features, i as nat),
            decreases 10 - i,
        {
            if all[i].included(features) {
                sections.push(all[i]);
            }
            i = i + 1;
        }
        sections
    }

    /// The help text of a build: its sections in order, each followed by a
    /// line break, and one empty line at the end.
    pub fn render(&self, features: Features) -> (text: String)
        ensures
            text@ == spec_help_text(features),
    {
        let sections = HelpString::sections(features);
        let mut text = String::new();
        let n = sections.len();
        let mut i: usize = 0;
        proof {
            assert(sections@.take(0) =~= Seq::<Section>::empty());
        }
        while i < n
            invariant
                n == sections@.len(),
                i <= n,
                text@ == spec_render(sections@.take(i as int)),
            decreases n - i,
        {
            proof {
                assert(sections@.take(i + 1).drop_last() =~= sections@.take(i as int));
            }
            text.append(sections[i].text());
            text.append("\n");
            i = i + 1;
        }
        proof {
            assert(sections@.take(n as int) =~= sections@);
        }
        text.append("\n");
        text
    }
}

/// Rendering one sequence of sections after another gives the text of the
/// first followed by the text of the second.
pub proof fn lemma_render_concat(first: Seq<Section>, second: Seq<Section>)
    ensures
        spec_render(first + second) == spec_render(first) + spec_render(second),
    decreases second.len(),
{
    if second.len() == 0 {
        assert(first + second =~= first);
        assert(spec_render(first) + spec_render(second) =~= spec_render(first));
    } else {
        lemma_render_concat(first, second.drop_last());
        assert((first + second).drop_last() =~= first + second.drop_last());
        assert((first + second).last() == second.last());
        assert(spec_render(first + second) =~= spec_render(first) + spec_render(second));
    }
}

/// The text of a single section is the section followed by a line break.
pub proof fn lemma_render_one(section: Section)
    ensures
        spec_render(seq![section]) == section.spec_text() + "\n"@,
{
    reveal_with_fuel(spec_render, 2);
    assert(seq![section].drop_last() =~= Seq::<Section>::empty());
    assert(spec_render(seq![section]) =~= section.spec_text() + "\n"@);
}

/// Git support adds two sections to the help text and changes nothing else:
/// the git-ignore line right after the filtering options, and the Git view
/// options right after the long view options. The empty line stays last.
pub proof fn lemma_git_adds_two_sections(xattr: bool)
    ensures
        ({
            let without = spec_sections(Features { git: false, xattr });
            let with = spec_sections(Features { git: true, xattr });
            &&& without.len() >= 6
            &&& without[3] == Section::Filtering
            &&& without[5] == Section::LongView
            &&& with == without.insert(4, Section::GitIgnore).insert(7, Section::GitView)
            &&& spec_help_text(Features { git: false, xattr }) == spec_render(without.take(4))
                + spec_render(without.subrange(4, 6)) + spec_render(without.skip(6)) + "\n"@
            &&& spec_help_text(Features { git: true, xattr }) == spec_render(without.take(4))
                + (Section::GitIgnore.spec_text() + "\n"@) + spec_render(without.subrange(4, 6))
                + (Section::GitView.spec_text() + "\n"@) + spec_render(without.skip(6)) + "\n"@
        }),
{
    reveal_with_fuel(shown_among, 11);
    let without = spec_sections(Features { git: false, xattr });
    let with = spec_sections(Features { git: true, xattr });
    let head = without.take(4);
    let middle = without.subrange(4, 6);
    let tail = without.skip(6);
    let git_ignore = seq![Section::GitIgnore];
    let git_view = seq![Section::GitView];
    assert(with =~= without.insert(4, Section::GitIgnore).insert(7, Section::GitView));
    assert(without =~= head + middle + tail);
    assert(with =~= head + git_ignore + middle + git_view + tail);
    lemma_render_concat(head, middle);
    lemma_render_concat(head + middle, tail);
    lemma_render_concat(head, git_ignore);
    lemma_render_concat(head + git_ignore, middle);
    lemma_render_concat(head + git_ignore + middle, git_view);
    lemma_render_concat(head + git_ignore + middle + git_view, tail);
    lemma_render_one(Section::GitIgnore);
    lemma_render_one(Section::GitView);
}

/// Extended-attribute support adds two lines after the last section of
/// the help text, before the empty line that closes it, and changes nothing
/// else.
pub proof fn lemma_xattr_adds_two_trailing_lines(git: bool)
    ensures
        spec_sections(Features { git, xattr: true }) == spec_sections(
            Features { git, xattr: false },
        ) + seq![Section::Extended, Section::SecurityContext],
        spec_help_text(Features { git, xattr: false }) == spec_body(
            Features { git, xattr: false },
        ) + "\n"@,
        spec_help_text(Features { git, xattr: true }) == spec_body(
            Features { git, xattr: false },
        ) + (Section::Extended.spec_text() + "\n"@) + (Section::SecurityContext.spec_text()
            + "\n"@) + "\n"@,
{
    reveal_with_fuel(shown_among, 11);
    let without = spec_sections(Features { git, xattr: false });
    let with = spec_sections(Features { git, xattr: true });
    let extended = seq![Section::Extended];
    let context = seq![Section::SecurityContext];
    assert(with =~= without + seq![Section::Extended, Section::SecurityContext]);
    assert(with =~= without + extended + context);
    lemma_render_concat(without, extended);
    lemma_render_concat(without + extended, context);
    lemma_render_one(Section::Extended);
    lemma_render_one(Section::SecurityContext);
}

/// The sections that can come last in a help text do not end with a line
/// break of their own.
proof fn lemma_last_sections_end_within_a_line()
    ensures
        Section::LongView.spec_text().len() > 0,
        Section::LongView.spec_text().last() != '\n',
        Section::GitView.spec_text().len() > 0,
        Section::GitView.spec_text().last() != '\n',
        Section::SecurityContext.spec_text().len() > 0,
        Section::SecurityContext.spec_text().last() != '\n',
{
    reveal_strlit("LONG VIEW OPTIONS
  -b, --binary               list file sizes with binary prefixes
  -B, --bytes                list file sizes in bytes, without any prefixes
  -g, --group                list each file's group
  -h, --header               add a header row to each column
  -H, --links                list each file's number of hard links
  -i, --inode                list each file's inode number
  -m, --modified             use the modified timestamp field
  -M, --mounts               show mount details (Linux and MacOS only)
  -n, --numeric              list numeric user and group IDs
  -S, --blocksize            show size of allocated file system blocks
  -t, --time FIELD           which timestamp field to list (modified, accessed, created)
  -u, --accessed             use the accessed timestamp field
  -U, --created              use the created timestamp field
  --changed                  use the changed timestamp field
  --time-style               how to format timestamps (default, iso, long-iso,
                             full-iso, relative, or a custom style with '+' as
                             prefix. Ex: '+%Y/%m/%d')
  --total-size               show the size of a directory as the size of all
                             files and directories inside
  --no-permissions           suppress the permissions field
  -o, --octal-permissions    list each file's permission in octal format
  --no-filesize              suppress the filesize field
  --no-user                  suppress the user field
  --no-time                  suppress the time field");
    reveal_strlit("  --git                      list each file's Git status, if tracked or ignored
  --no-git                   suppress Git status (always overrides --git,
                             --git-repos, --git-repos-no-status)
  --git-repos                list root of git-tree status");
    reveal_strlit("  -Z, --context              list each file's security context");
}

/// The help text ends with exactly one empty line: after the last line of
/// the last section come its line break and one more, never none and never
/// two.
pub proof fn lemma_help_text_ends_with_one_empty_line(features: Features)
    ensures
        spec_help_text(features).len() >= 3,
        spec_help_text(features).last() == '\n',
        spec_help_text(features)[spec_help_text(features).len() - 2] == '\n',
        spec_help_text(features)[spec_help_text(features).len() - 3] != '\n',
{
    reveal_with_fuel(shown_among, 11);
    reveal_strlit("\n");
    lemma_last_sections_end_within_a_line();
}

} // verus!
