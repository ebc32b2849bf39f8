use eza_options::bag::{FlagBag, Occurrence, Token};
use eza_options::columns::{Columns, SizeFormat, TimeField};
use eza_options::display::{Mode, Width};
use eza_options::error::{legal_values, DeductionError};
use eza_options::features::Features;
use eza_options::filter::{Filter, HiddenFiles};
use eza_options::flags::Flag;
use eza_options::git::GitPolicy;
use eza_options::options::{resolve, OptionsResult};
use eza_options::settings::Settings;
use eza_options::sort::{SortDirection, SortField};
use eza_options::theme::When;

/// Splits a command line into flag occurrences; what is no flag is a path.
fn occurrences(args: &[&str]) -> Vec<Occurrence> {
    let mut found = Vec::new();
    for arg in args {
        if let Some(long) = arg.strip_prefix("--") {
            let (name, value) = match long.split_once('=') {
                Some((name, value)) => (name, Some(value.to_string())),
                None => (long, None),
            };
            found.push(Occurrence { token: Token::Long(name.to_string()), count: 1, value });
        } else if let Some(shorts) = arg.strip_prefix('-') {
            for short in shorts.chars() {
                found.push(Occurrence { token: Token::Short(short), count: 1, value: None });
            }
        }
    }
    found
}

fn bag(args: &[&str]) -> FlagBag {
    FlagBag::from_occurrences(&occurrences(args))
}

fn all_features() -> Features {
    Features::new(true, true)
}

fn settings(args: &[&str]) -> Settings {
    match resolve(&bag(args), all_features()) {
        OptionsResult::Resolved(settings) => settings,
        other => panic!("not resolved: {:?}", other),
    }
}

fn failures(args: &[&str]) -> Vec<DeductionError> {
    match resolve(&bag(args), all_features()) {
        OptionsResult::InvalidOptions(errors) => errors,
        other => panic!("not rejected: {:?}", other),
    }
}

fn bad_argument(flag: Flag, given: &str) -> DeductionError {
    DeductionError::BadArgument { flag, given: given.to_string() }
}

#[test]
fn defaults_without_flags() {
    let resolved = settings(&[]);
    assert_eq!(resolved.mode, Mode::Grid);
    assert_eq!(resolved.sort_field, SortField::Name);
    assert_eq!(resolved.sort_direction, SortDirection::Ascending);
    assert_eq!(
        resolved.filter,
        Filter {
            hidden: HiddenFiles::Excluded,
            only_dirs: false,
            only_files: false,
            git_ignore: false,
            ignore_globs: vec![],
        }
    );
    assert_eq!(
        resolved.columns,
        Columns {
            permissions: true,
            octal: false,
            filesize: true,
            size_format: SizeFormat::Decimal,
            user: true,
            group: false,
            time: true,
            inode: false,
            links: false,
            blocksize: false,
            header: false,
            numeric: false,
            extended: false,
            security_context: false,
        }
    );
    assert_eq!(resolved.time_field, TimeField::Modified);
    assert_eq!(resolved.color, When::Auto);
    assert_eq!(resolved.icons, When::Auto);
    assert_eq!(resolved.git, GitPolicy { status: false, repos: false, repos_no_status: false });
    assert!(resolved.git.is_disabled());
    assert_eq!(resolved.width, Width::Automatic);
}

#[test]
fn bogus_color_is_rejected() {
    let errors = failures(&["--color=bogus"]);
    assert_eq!(errors, vec![bad_argument(Flag::Color, "bogus")]);
    assert_eq!(errors[0].flag(), Flag::Color);
    assert_eq!(errors[0].flag().long_name(), "color");
    assert_eq!(errors[0].legal_values(), vec!["always", "auto", "never"]);
    assert_eq!(
        errors[0].message(),
        "Option --color has no \"bogus\" setting (choices: always, auto, never)"
    );
}

#[test]
fn bogus_colour_names_the_canonical_flag() {
    let errors = failures(&["--colour=bogus"]);
    assert_eq!(errors, vec![bad_argument(Flag::Color, "bogus")]);
    assert_eq!(errors[0].flag().long_name(), "color");
}

#[test]
fn git_and_no_git() {
    assert!(settings(&["--git", "--no-git"]).git.is_disabled());
    assert_eq!(
        settings(&["--git", "--no-git"]).git,
        GitPolicy { status: false, repos: false, repos_no_status: false }
    );
}

#[test]
fn no_git_wins_in_any_order_and_number() {
    for args in [
        vec!["--no-git", "--git"],
        vec!["--git", "--git", "--git", "--no-git"],
        vec!["--no-git", "--git-repos", "--git"],
        vec!["--git-repos-no-status", "--no-git", "--git-repos"],
        vec!["--no-git"],
    ] {
        assert!(settings(&args).git.is_disabled(), "{:?}", args);
    }
}

#[test]
fn git_requests_without_no_git() {
    assert_eq!(
        settings(&["--git"]).git,
        GitPolicy { status: true, repos: false, repos_no_status: false }
    );
    assert_eq!(
        settings(&["--git-repos", "--git-repos-no-status"]).git,
        GitPolicy { status: false, repos: true, repos_no_status: true }
    );
    assert!(!settings(&["--git"]).git.is_disabled());
}

#[test]
fn all_twice_shows_dots() {
    assert_eq!(settings(&["-a", "-a"]).filter.hidden, HiddenFiles::IncludedWithDots);
}

#[test]
fn hidden_files_by_count() {
    assert_eq!(settings(&[]).filter.hidden, HiddenFiles::Excluded);
    assert_eq!(settings(&["-a"]).filter.hidden, HiddenFiles::Included);
    assert_eq!(settings(&["-aa"]).filter.hidden, HiddenFiles::IncludedWithDots);
    assert_eq!(settings(&["-a", "--all", "-a"]).filter.hidden, HiddenFiles::IncludedWithDots);
    assert_eq!(settings(&["-aaa"]).filter, settings(&["-aa"]).filter);
    assert_eq!(settings(&["-aaa"]), settings(&["-aa"]));
}

#[test]
fn hidden_files_by_repeat_count() {
    for (count, expected) in [
        (0u8, HiddenFiles::Excluded),
        (1, HiddenFiles::Included),
        (2, HiddenFiles::IncludedWithDots),
        (3, HiddenFiles::IncludedWithDots),
        (255, HiddenFiles::IncludedWithDots),
    ] {
        let counted = vec![Occurrence { token: Token::Short('a'), count, value: None }];
        let bag = FlagBag::from_occurrences(&counted);
        assert_eq!(HiddenFiles::deduce(&bag), expected);
    }
}

#[test]
fn almost_all_shows_hidden_files_only() {
    assert_eq!(settings(&["-A"]).filter.hidden, HiddenFiles::Included);
    assert_eq!(settings(&["-A", "-A"]).filter.hidden, HiddenFiles::Included);
    assert_eq!(settings(&["-A", "-a"]).filter.hidden, HiddenFiles::Included);
    assert_eq!(settings(&["-A", "-a", "-a"]).filter.hidden, HiddenFiles::IncludedWithDots);
}

#[test]
fn either_spelling_of_color() {
    for word in ["always", "auto", "never"] {
        let american = format!("--color={}", word);
        let british = format!("--colour={}", word);
        assert_eq!(settings(&[&american]), settings(&[&british]));
        assert_eq!(bag(&[&american]), bag(&[&british]));
    }
    assert_eq!(settings(&["--colour=always"]).color, When::Always);
    assert_eq!(settings(&["--color=never"]).color, When::Never);
    assert_eq!(settings(&["--color=auto"]).color, When::Auto);
}

#[test]
fn either_spelling_of_other_flags() {
    assert_eq!(bag(&["--color-scale"]), bag(&["--colour-scale"]));
    assert_eq!(bag(&["--octal"]), bag(&["--octal-permission"]));
    assert_eq!(bag(&["--octal"]), bag(&["--octal-permissions"]));
    assert_eq!(bag(&["--octal"]), bag(&["-o"]));
    assert_eq!(bag(&["--mount"]), bag(&["--mounts"]));
    assert_eq!(settings(&["--octal-permissions"]), settings(&["-o"]));
    assert!(settings(&["--octal-permission"]).columns.octal);
    assert_eq!(settings(&["--all", "--long"]), settings(&["-a", "-l"]));
    assert_eq!(settings(&["--context"]), settings(&["-Z"]));
}

#[test]
fn last_color_value_wins() {
    assert_eq!(settings(&["--color=always", "--colour=never"]).color, When::Never);
    assert_eq!(settings(&["--colour=never", "--color=always"]).color, When::Always);
    assert_eq!(failures(&["--color=always", "--colour=bogus"]), vec![bad_argument(Flag::Color, "bogus")]);
    assert_eq!(settings(&["--color=bogus", "--colour=auto"]).color, When::Auto);
}

#[test]
fn icons_policy() {
    assert_eq!(settings(&[]).icons, When::Auto);
    assert_eq!(settings(&["--icons"]).icons, When::Always);
    assert_eq!(settings(&["--icons=always"]).icons, When::Always);
    assert_eq!(settings(&["--icons=auto"]).icons, When::Auto);
    assert_eq!(settings(&["--icons=never"]).icons, When::Never);
    assert_eq!(failures(&["--icons=sometimes"]), vec![bad_argument(Flag::Icons, "sometimes")]);
}

#[test]
fn no_icons_always_wins() {
    for args in [
        vec!["--no-icons"],
        vec!["--icons", "--no-icons"],
        vec!["--no-icons", "--icons=always"],
        vec!["--icons=always", "--icons", "--icons", "--no-icons"],
        vec!["--no-icons", "--icons=sometimes"],
    ] {
        assert_eq!(settings(&args).icons, When::Never, "{:?}", args);
    }
}

#[test]
fn no_time_hides_the_column_and_ignores_the_value() {
    assert!(!settings(&["--no-time"]).columns.time);
    assert!(!settings(&["--time=created", "--no-time"]).columns.time);
    assert!(!settings(&["--no-time", "--time=bogus"]).columns.time);
    assert_eq!(settings(&["--no-time", "--time=created"]).time_field, TimeField::Modified);
    assert_eq!(settings(&["--no-time", "-u"]).time_field, TimeField::Accessed);
    assert!(settings(&["--time=created"]).columns.time);
}

#[test]
fn suppressed_columns() {
    let resolved = settings(&["--no-permissions", "--no-filesize", "--no-user", "-o"]);
    assert!(!resolved.columns.permissions);
    assert!(!resolved.columns.filesize);
    assert!(!resolved.columns.user);
    assert!(resolved.columns.octal);
    assert!(resolved.columns.time);
}

#[test]
fn requested_columns() {
    let resolved = settings(&["-g", "-i", "-H", "-S", "-h", "-n"]);
    assert!(resolved.columns.group);
    assert!(resolved.columns.inode);
    assert!(resolved.columns.links);
    assert!(resolved.columns.blocksize);
    assert!(resolved.columns.header);
    assert!(resolved.columns.numeric);
    assert_eq!(Columns::deduce(&bag(&["-g"]), all_features()).group, true);
    assert_eq!(Columns::deduce(&bag(&[]), all_features()).group, false);
}

#[test]
fn size_format() {
    assert_eq!(settings(&[]).columns.size_format, SizeFormat::Decimal);
    assert_eq!(settings(&["-b"]).columns.size_format, SizeFormat::Binary);
    assert_eq!(settings(&["-B"]).columns.size_format, SizeFormat::Bytes);
    assert_eq!(settings(&["-b", "-B"]).columns.size_format, SizeFormat::Bytes);
    assert_eq!(settings(&["-B", "-b"]).columns.size_format, SizeFormat::Bytes);
    assert_eq!(SizeFormat::deduce(&bag(&["--binary"])), SizeFormat::Binary);
}

#[test]
fn git_flags_without_git_support() {
    let no_git = Features::new(false, true);
    for args in [
        vec!["--git"],
        vec!["--git", "--git"],
        vec!["--git-repos"],
        vec!["--git-repos-no-status"],
        vec!["--no-git"],
        vec!["--git-ignore"],
        vec!["--git", "--git-repos", "--git-repos-no-status", "--git-ignore"],
    ] {
        match resolve(&bag(&args), no_git) {
            OptionsResult::Resolved(resolved) => {
                assert!(resolved.git.is_disabled(), "{:?}", args);
                assert!(!resolved.filter.git_ignore, "{:?}", args);
                assert_eq!(OptionsResult::Resolved(resolved), resolve(&bag(&[]), no_git));
            },
            other => panic!("{:?}: {:?}", args, other),
        }
        assert!(GitPolicy::deduce(&bag(&args), no_git).is_disabled());
    }
}

#[test]
fn git_flags_do_not_hide_other_failures() {
    let no_git = Features::new(false, false);
    assert_eq!(
        resolve(&bag(&["--git", "--color=bogus"]), no_git),
        OptionsResult::InvalidOptions(vec![bad_argument(Flag::Color, "bogus")])
    );
}

#[test]
fn git_ignore_with_git_support() {
    assert!(settings(&["--git-ignore"]).filter.git_ignore);
    assert!(!settings(&[]).filter.git_ignore);
}

#[test]
fn xattr_flags_by_support() {
    assert!(settings(&["-@"]).columns.extended);
    assert!(settings(&["-Z"]).columns.security_context);
    let plain = Features::new(true, false);
    match resolve(&bag(&["--extended", "--context"]), plain) {
        OptionsResult::Resolved(resolved) => {
            assert!(!resolved.columns.extended);
            assert!(!resolved.columns.security_context);
            assert_eq!(OptionsResult::Resolved(resolved), resolve(&bag(&[]), plain));
        },
        other => panic!("{:?}", other),
    }
}

#[test]
fn mode_precedence() {
    assert_eq!(settings(&[]).mode, Mode::Grid);
    assert_eq!(settings(&["-G"]).mode, Mode::Grid);
    assert_eq!(settings(&["-1"]).mode, Mode::Oneline);
    assert_eq!(settings(&["-T"]).mode, Mode::Tree);
    assert_eq!(settings(&["-l"]).mode, Mode::Long);
    assert_eq!(settings(&["-1", "-G"]).mode, Mode::Oneline);
    assert_eq!(settings(&["-G", "-1"]).mode, Mode::Oneline);
    assert_eq!(settings(&["-1", "-T"]).mode, Mode::Tree);
    assert_eq!(settings(&["-T", "-l"]).mode, Mode::Long);
    assert_eq!(settings(&["-l", "-T"]).mode, Mode::Long);
    assert_eq!(settings(&["-G", "-1", "-T", "-l"]).mode, Mode::Long);
    assert_eq!(settings(&["-l", "-T", "-1", "-G"]).mode, Mode::Long);
    assert_eq!(settings(&["-G", "-G", "-G", "-1"]).mode, Mode::Oneline);
}

#[test]
fn across_belongs_to_the_grid() {
    assert_eq!(settings(&["-x"]).mode, Mode::Grid);
    assert_eq!(settings(&["-x", "-G"]).mode, Mode::Grid);
    assert_eq!(
        failures(&["-x", "-l"]),
        vec![DeductionError::Conflict { first: Flag::Across, second: Flag::Long }]
    );
    assert_eq!(
        failures(&["-T", "--across"]),
        vec![DeductionError::Conflict { first: Flag::Across, second: Flag::Tree }]
    );
    assert_eq!(
        failures(&["-1", "-x", "-G"]),
        vec![DeductionError::Conflict { first: Flag::Across, second: Flag::Oneline }]
    );
    assert_eq!(
        Mode::deduce(&bag(&["-x", "-1", "-l"])),
        Err(DeductionError::Conflict { first: Flag::Across, second: Flag::Long })
    );
    assert_eq!(
        failures(&["-x", "-l"])[0].message(),
        "Option --across conflicts with option --long"
    );
    assert_eq!(failures(&["-x", "-l"])[0].legal_values(), Vec::<&str>::new());
    assert_eq!(failures(&["-x", "-l"])[0].flag(), Flag::Across);
}

#[test]
fn mode_flags() {
    assert_eq!(Mode::Grid.flag(), Flag::Grid);
    assert_eq!(Mode::Oneline.flag(), Flag::Oneline);
    assert_eq!(Mode::Long.flag(), Flag::Long);
    assert_eq!(Mode::Tree.flag(), Flag::Tree);
}

#[test]
fn width_values() {
    assert_eq!(settings(&[]).width, Width::Automatic);
    assert_eq!(settings(&["--width=80"]).width, Width::Columns(80));
    assert_eq!(settings(&["--width=+80"]).width, Width::Columns(80));
    assert_eq!(settings(&["--width=1"]).width, Width::Columns(1));
    assert_eq!(settings(&["--width=0"]).width, Width::Automatic);
    assert_eq!(settings(&["--width=007"]).width, Width::Columns(7));
    assert_eq!(settings(&["--width=80", "--width=120"]).width, Width::Columns(120));
}

#[test]
fn width_that_is_no_number() {
    for given in ["wide", "", "-5", "8o", "+", "٣", "99999999999999999999999999"] {
        let arg = format!("--width={}", given);
        assert_eq!(
            failures(&[&arg]),
            vec![DeductionError::NotANumber { flag: Flag::Width, given: given.to_string() }]
        );
    }
    let errors = failures(&["--width=wide"]);
    assert_eq!(errors[0].message(), "Option --width needs a number, not \"wide\"");
    assert_eq!(errors[0].flag(), Flag::Width);
    assert_eq!(errors[0].legal_values(), Vec::<&str>::new());
}

#[test]
fn sort_fields() {
    for (word, field) in [
        ("name", SortField::Name),
        ("Name", SortField::NameCaseSensitive),
        ("extension", SortField::Extension),
        ("Extension", SortField::ExtensionCaseSensitive),
        ("size", SortField::Size),
        ("type", SortField::Type),
        ("modified", SortField::Modified),
        ("date", SortField::Modified),
        ("time", SortField::Modified),
        ("old", SortField::Modified),
        ("new", SortField::Modified),
        ("accessed", SortField::Accessed),
        ("created", SortField::Created),
        ("inode", SortField::Inode),
        ("none", SortField::Unsorted),
    ] {
        assert_eq!(SortField::parse(word), Some(field));
        assert_eq!(settings(&[&format!("--sort={}", word)]).sort_field, field);
        assert!(legal_values(Flag::Sort).contains(&word));
    }
    assert_eq!(legal_values(Flag::Sort).len(), 15);
    assert_eq!(SortField::parse("NAME"), None);
    assert_eq!(SortField::parse(""), None);
    assert_eq!(failures(&["--sort=colour"]), vec![bad_argument(Flag::Sort, "colour")]);
    assert_eq!(
        failures(&["--sort=colour"])[0].message(),
        "Option --sort has no \"colour\" setting (choices: name, Name, extension, Extension, \
         size, type, modified, accessed, created, inode, none, date, time, old, new)"
    );
}

#[test]
fn sort_direction() {
    assert_eq!(settings(&[]).sort_direction, SortDirection::Ascending);
    assert_eq!(settings(&["-r"]).sort_direction, SortDirection::Descending);
    assert_eq!(settings(&["--reverse", "-r"]).sort_direction, SortDirection::Descending);
    assert_eq!(SortDirection::deduce(&bag(&["-r"])), SortDirection::Descending);
}

#[test]
fn time_field_priority() {
    assert_eq!(settings(&[]).time_field, TimeField::Modified);
    assert_eq!(settings(&["--changed"]).time_field, TimeField::Changed);
    assert_eq!(settings(&["-u"]).time_field, TimeField::Accessed);
    assert_eq!(settings(&["-U"]).time_field, TimeField::Created);
    assert_eq!(settings(&["-m"]).time_field, TimeField::Modified);
    assert_eq!(settings(&["--changed", "-u"]).time_field, TimeField::Accessed);
    assert_eq!(settings(&["-u", "--changed"]).time_field, TimeField::Accessed);
    assert_eq!(settings(&["-u", "-U"]).time_field, TimeField::Created);
    assert_eq!(settings(&["-U", "-u"]).time_field, TimeField::Created);
    assert_eq!(settings(&["-U", "-m"]).time_field, TimeField::Modified);
    assert_eq!(settings(&["-m", "-U", "-u", "--changed"]).time_field, TimeField::Modified);
    assert_eq!(settings(&["--changed", "-u", "-U", "-m"]).time_field, TimeField::Modified);
}

#[test]
fn time_field_by_word() {
    assert_eq!(settings(&["--time=modified"]).time_field, TimeField::Modified);
    assert_eq!(settings(&["--time=accessed"]).time_field, TimeField::Accessed);
    assert_eq!(settings(&["--time=created"]).time_field, TimeField::Created);
    assert_eq!(settings(&["--time=accessed", "-U"]).time_field, TimeField::Created);
    assert_eq!(settings(&["--time=created", "-u"]).time_field, TimeField::Created);
    assert_eq!(settings(&["--time=accessed", "--changed"]).time_field, TimeField::Accessed);
    assert_eq!(failures(&["--time=changed"]), vec![bad_argument(Flag::Time, "changed")]);
    assert_eq!(failures(&["--time=changed"])[0].legal_values(), vec!["modified", "accessed", "created"]);
    assert_eq!(TimeField::parse("created"), Some(TimeField::Created));
    assert_eq!(TimeField::parse("changed"), None);
}

#[test]
fn policy_words() {
    assert_eq!(When::parse("always"), Some(When::Always));
    assert_eq!(When::parse("auto"), Some(When::Auto));
    assert_eq!(When::parse("never"), Some(When::Never));
    assert_eq!(When::parse("Always"), None);
    assert_eq!(When::parse("alway"), None);
    assert_eq!(When::parse("always "), None);
    assert_eq!(When::parse(""), None);
    assert_eq!(legal_values(Flag::Color), vec!["always", "auto", "never"]);
    assert_eq!(legal_values(Flag::Icons), vec!["always", "auto", "never"]);
    assert_eq!(legal_values(Flag::Width), Vec::<&str>::new());
    assert_eq!(When::deduce_color(&bag(&["--color=never"])), Ok(When::Never));
    assert_eq!(When::deduce_icons(&bag(&["--icons=never"])), Ok(When::Never));
}

#[test]
fn every_failure_is_reported() {
    let errors = failures(&[
        "--width=wide",
        "--icons=sometimes",
        "--color=bogus",
        "--time=whenever",
        "--sort=anyhow",
        "-x",
        "-T",
    ]);
    assert_eq!(
        errors,
        vec![
            DeductionError::Conflict { first: Flag::Across, second: Flag::Tree },
            bad_argument(Flag::Sort, "anyhow"),
            bad_argument(Flag::Time, "whenever"),
            bad_argument(Flag::Color, "bogus"),
            bad_argument(Flag::Icons, "sometimes"),
            DeductionError::NotANumber { flag: Flag::Width, given: "wide".to_string() },
        ]
    );
    assert_eq!(
        Settings::deduce(&bag(&["--color=bogus", "--sort=anyhow"]), all_features()),
        Err(vec![bad_argument(Flag::Sort, "anyhow"), bad_argument(Flag::Color, "bogus")])
    );
}

#[test]
fn filters() {
    let resolved = settings(&["-D", "-f"]);
    assert!(resolved.filter.only_dirs);
    assert!(resolved.filter.only_files);
    assert!(settings(&["--only-dirs"]).filter.only_dirs);
    assert!(!settings(&["--only-dirs"]).filter.only_files);
    assert_eq!(Filter::deduce(&bag(&["-f"]), all_features()).only_files, true);
}

#[test]
fn ignore_globs() {
    assert_eq!(settings(&[]).filter.ignore_globs, Vec::<String>::new());
    assert_eq!(settings(&["--ignore-glob=*.o"]).filter.ignore_globs, vec!["*.o"]);
    assert_eq!(
        settings(&["--ignore-glob=*.o|target|*.tmp"]).filter.ignore_globs,
        vec!["*.o", "target", "*.tmp"]
    );
    assert_eq!(settings(&["--ignore-glob=a||b|"]).filter.ignore_globs, vec!["a", "", "b", ""]);
    assert_eq!(settings(&["--ignore-glob="]).filter.ignore_globs, vec![""]);
    assert_eq!(settings(&["--ignore-glob=a", "--ignore-glob=b|c"]).filter.ignore_globs, vec!["b", "c"]);
}

#[test]
fn constructed_errors() {
    assert_eq!(DeductionError::bad_argument(Flag::Sort, "x"), bad_argument(Flag::Sort, "x"));
    assert_eq!(
        DeductionError::not_a_number(Flag::Width, "x"),
        DeductionError::NotANumber { flag: Flag::Width, given: "x".to_string() }
    );
}
