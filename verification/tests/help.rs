use eza_options::bag::{FlagBag, Occurrence, Token};
use eza_options::features::Features;
use eza_options::help::{HelpString, Section};
use eza_options::options::{resolve, OptionsResult};

const USAGE_PART1: &str = "Usage:
  eza [options] [files...]

META OPTIONS
  --help                     show list of command-line options
  -v, --version              show version of eza

DISPLAY OPTIONS
  -1, --oneline              display one entry per line
  -l, --long                 display extended file metadata as a table
  -G, --grid                 display entries as a grid (default)
  -x, --across               sort the grid across, rather than downwards
  -R, --recurse              recurse into directories
  -T, --tree                 recurse into directories as a tree
  -X, --dereference          dereference symbolic links when displaying information
  -F, --classify             display type indicator by file names
  --colo[u]r=WHEN            when to use terminal colours (always, auto, never)
  --colo[u]r-scale           highlight levels of 'field' distinctly(all, age, size)
  --colo[u]r-scale-mode      use gradient or fixed colors in --color-scale (fixed, gradient)
  --icons=WHEN               when to display icons (always, auto, never)
  --no-quotes                don't quote file names with spaces
  --hyperlink                display entries as hyperlinks
  -w, --width COLS           set screen width in columns
  --smart-group              only show group if it has a different name from owner


FILTERING AND SORTING OPTIONS
  -a, --all                  show hidden and 'dot' files. Use this twice to also
                             show the '.' and '..' directories
  -A, --almost-all           equivalent to --all; included for compatibility with `ls -A`
  -d, --list-dirs            list directories as files; don't list their contents
  -L, --level DEPTH          limit the depth of recursion
  -r, --reverse              reverse the sort order
  -s, --sort SORT_FIELD      which field to sort by
  --group-directories-first  list directories before other files
  -D, --only-dirs            list only directories
  -f, --only-files           list only files
  -I, --ignore-glob GLOBS    glob patterns (pipe-separated) of files to ignore";

const GIT_FILTER_HELP: &str = "  --git-ignore               ignore files mentioned in '.gitignore'";

const USAGE_PART2: &str = "  Valid sort fields:         name, Name, extension, Extension, size, type,
                             modified, accessed, created, inode, and none.
                             date, time, old, and new all refer to modified.

LONG VIEW OPTIONS
  -b, --binary               list file sizes with binary prefixes
  -B, --bytes                list file sizes in bytes, without any prefixes
  -g, --group                list each file's group
  -h, --header               add a header row to each column
  -H, --links                list each file's number of hard links
  -i, --inode                list each file's inode number
  -m, --modified             use the modified timestamp field
  -M, --mounts               show mount details (Linux and MacOS only)
  -n, --numeric              list numeric user and group IDs
  -S, --blocksize            show size of allocated file system blocks
  -t, --time FIELD           which timestamp field to list (modified, accessed, created)
  -u, --accessed             use the accessed timestamp field
  -U, --created              use the created timestamp field
  --changed                  use the changed timestamp field
  --time-style               how to format timestamps (default, iso, long-iso,
                             full-iso, relative, or a custom style with '+' as
                             prefix. Ex: '+%Y/%m/%d')
  --total-size               show the size of a directory as the size of all
                             files and directories inside
  --no-permissions           suppress the permissions field
  -o, --octal-permissions    list each file's permission in octal format
  --no-filesize              suppress the filesize field
  --no-user                  suppress the user field
  --no-time                  suppress the time field";

const GIT_VIEW_HELP: &str = "  --git                      list each file's Git status, if tracked or ignored
  --no-git                   suppress Git status (always overrides --git,
                             --git-repos, --git-repos-no-status)
  --git-repos                list root of git-tree status";

const EXTENDED_HELP: &str = "  -@, --extended             list each file's extended attributes and sizes";

const SECATTR_HELP: &str = "  -Z, --context              list each file's security context";

/// Splits a command line into flag occurrences; what is no flag is a path.
fn occurrences(args: &[&str]) -> Vec<Occurrence> {
    let mut found = Vec::new();
    for arg in args {
        if let Some(long) = arg.strip_prefix("--") {
            let (name, value) = match long.split_once('=') {
                Some((name, value)) => (name, Some(value.to_string())),
                None => (long, None),
            };
            found.push(Occurrence { token: Token::Long(name.to_string()), count: 1, value });
        } else if let Some(shorts) = arg.strip_prefix('-') {
            for short in shorts.chars() {
                found.push(Occurrence { token: Token::Short(short), count: 1, value: None });
            }
        }
    }
    found
}

fn parse(args: Vec<&str>) -> OptionsResult {
    let bag = FlagBag::from_occurrences(&occurrences(&args));
    resolve(&bag, Features::new(true, true))
}

/// The help text put together fragment by fragment, closed by one empty
/// line.
fn expected_help(git: bool, xattr: bool) -> String {
    let mut text = String::from(USAGE_PART1);
    if git {
        text.push('\n');
        text.push_str(GIT_FILTER_HELP);
    }
    text.push('\n');
    text.push_str(USAGE_PART2);
    if git {
        text.push('\n');
        text.push_str(GIT_VIEW_HELP);
    }
    if xattr {
        text.push('\n');
        text.push_str(EXTENDED_HELP);
        text.push('\n');
        text.push_str(SECATTR_HELP);
    }
    text.push('\n');
    text.push('\n');
    text
}

#[test]
fn help() {
    let args = vec!["--help"];
    let opts = parse(args);
    assert!(matches!(opts, OptionsResult::Help(_)));
}

#[test]
fn help_with_file() {
    let args = vec!["--help", "me"];
    let opts = parse(args);
    assert!(matches!(opts, OptionsResult::Help(_)));
}

#[test]
fn unhelpful() {
    let args = vec![];
    let opts = parse(args);
    assert!(!matches!(opts, OptionsResult::Help(_))); // no help when --help isn't passed
}

#[test]
fn help_by_short_form() {
    assert!(matches!(parse(vec!["-?"]), OptionsResult::Help(_)));
}

#[test]
fn help_given_twice() {
    assert!(matches!(parse(vec!["--help", "--help"]), OptionsResult::Help(_)));
}

#[test]
fn help_wins_over_invalid_flags() {
    let args = vec!["--color=bogus", "--help", "--width=wide", "--across", "--long"];
    let opts = parse(args);
    assert_eq!(opts, OptionsResult::Help(HelpString));
    let text = HelpString.render(Features::new(true, true));
    assert_eq!(text, expected_help(true, true));
}

#[test]
fn help_deduce_counts_the_help_flag() {
    let with = FlagBag::from_occurrences(&occurrences(&["-l", "--help"]));
    assert_eq!(HelpString::deduce(&with), Some(HelpString));
    let without = FlagBag::from_occurrences(&occurrences(&["-l", "--git"]));
    assert_eq!(HelpString::deduce(&without), None);
    let zero = vec![Occurrence { token: Token::Long("help".to_string()), count: 0, value: None }];
    assert_eq!(HelpString::deduce(&FlagBag::from_occurrences(&zero)), None);
}

#[test]
fn help_text_of_every_build() {
    for git in [false, true] {
        for xattr in [false, true] {
            let text = HelpString.render(Features::new(git, xattr));
            assert_eq!(text, expected_help(git, xattr));
        }
    }
}

#[test]
fn help_text_starts_with_usage() {
    let text = HelpString.render(Features::new(false, false));
    assert!(text.starts_with("Usage:\n  eza [options] [files...]\n\nMETA OPTIONS\n"));
}

#[test]
fn help_text_ends_with_one_empty_line() {
    for git in [false, true] {
        for xattr in [false, true] {
            let text = HelpString.render(Features::new(git, xattr));
            assert!(text.ends_with("\n\n"));
            assert!(!text.ends_with("\n\n\n"));
            assert_eq!(text.lines().last(), Some(""));
            assert_ne!(text.lines().rev().nth(1), Some(""));
        }
    }
    assert!(HelpString.render(Features::new(false, false)).ends_with("suppress the time field\n\n"));
    assert!(HelpString.render(Features::new(true, false)).ends_with("list root of git-tree status\n\n"));
    assert!(HelpString.render(Features::new(false, true)).ends_with("list each file's security context\n\n"));
    assert!(HelpString.render(Features::new(true, true)).ends_with("list each file's security context\n\n"));
}

#[test]
fn help_sections_in_fixed_order() {
    assert_eq!(
        HelpString::sections(Features::new(false, false)),
        vec![
            Section::Usage,
            Section::Meta,
            Section::Display,
            Section::Filtering,
            Section::SortFields,
            Section::LongView,
        ]
    );
    assert_eq!(
        HelpString::sections(Features::new(true, true)),
        vec![
            Section::Usage,
            Section::Meta,
            Section::Display,
            Section::Filtering,
            Section::GitIgnore,
            Section::SortFields,
            Section::LongView,
            Section::GitView,
            Section::Extended,
            Section::SecurityContext,
        ]
    );
}

#[test]
fn git_support_adds_two_sections_in_place() {
    for xattr in [false, true] {
        let without = HelpString.render(Features::new(false, xattr));
        let with = HelpString.render(Features::new(true, xattr));
        let filter_line = format!("{}\n", GIT_FILTER_HELP);
        let view_lines = format!("{}\n", GIT_VIEW_HELP);
        let first = with.find(&filter_line).unwrap();
        let mut rest = with.clone();
        rest.replace_range(first..first + filter_line.len(), "");
        let second = rest.find(&view_lines).unwrap();
        rest.replace_range(second..second + view_lines.len(), "");
        assert_eq!(rest, without);
        assert!(with[..first].ends_with("glob patterns (pipe-separated) of files to ignore\n"));
        assert!(with[first + filter_line.len()..].starts_with("  Valid sort fields:"));
        assert!(rest[..second].ends_with("suppress the time field\n"));
        assert!(!without.contains("--git"));
    }
}

#[test]
fn xattr_support_adds_two_trailing_lines() {
    for git in [false, true] {
        let without = HelpString.render(Features::new(git, false));
        let with = HelpString.render(Features::new(git, true));
        let body = without.strip_suffix('\n').unwrap();
        assert_eq!(with, format!("{}{}\n{}\n\n", body, EXTENDED_HELP, SECATTR_HELP));
    }
}

#[test]
fn help_text_does_not_depend_on_flags() {
    let plain = HelpString.render(Features::new(true, false));
    let _ = parse(vec!["--help", "--long", "--no-git"]);
    assert_eq!(HelpString.render(Features::new(true, false)), plain);
}

#[test]
fn section_shown_by_feature() {
    let neither = Features::new(false, false);
    let both = Features::new(true, true);
    assert!(Section::Usage.included(neither));
    assert!(Section::LongView.included(neither));
    assert!(!Section::GitIgnore.included(neither));
    assert!(!Section::GitView.included(neither));
    assert!(!Section::Extended.included(neither));
    assert!(!Section::SecurityContext.included(neither));
    assert!(Section::GitIgnore.included(both));
    assert!(Section::SecurityContext.included(both));
    assert!(Section::GitView.included(Features::new(true, false)));
    assert!(!Section::Extended.included(Features::new(true, false)));
    assert_eq!(Section::GitIgnore.text(), GIT_FILTER_HELP);
    assert_eq!(Section::Extended.text(), EXTENDED_HELP);
}
