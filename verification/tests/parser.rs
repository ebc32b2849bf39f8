use eza_options::bag::{FlagBag, Occurrence, Token};
use eza_options::features::Features;
use eza_options::filter::HiddenFiles;
use eza_options::flags::Flag;
use eza_options::options::{resolve, OptionsResult};
use eza_options::display::Width;
use eza_options::parser::{get_styles, AnsiColor, Opts, Style};
use eza_options::theme::When;

fn long(name: &str, count: u8, value: Option<&str>) -> Occurrence {
    Occurrence { token: Token::Long(name.to_string()), count, value: value.map(str::to_string) }
}

#[test]
fn default_opts() {
    let opts = Opts::default();
    assert!(opts.paths.is_empty());
    assert_eq!(opts.all, 0);
    assert_eq!(opts.long, 0);
    assert_eq!(opts.git, 0);
    assert_eq!(opts.no_git, 0);
    assert_eq!(opts.width, None);
    assert_eq!(opts.level, None);
    assert_eq!(opts.color, None);
    assert_eq!(opts.colour, None);
    assert_eq!(opts.sort, None);
    assert_eq!(opts.time, None);
    assert_eq!(opts.time_style, None);
    assert_eq!(opts.ignore_glob, None);
    assert_eq!(opts.help, Some(false));
    assert_eq!(opts.octal, 0);
    assert_eq!(opts.no_quotes, 0);
    assert_eq!(opts.occurrences(), vec![]);
    assert_eq!(opts.matched_flags(), FlagBag::from_occurrences(&vec![]));
}

#[test]
fn default_opts_are_unhelpful() {
    let opts = Opts::default();
    let result = resolve(&opts.matched_flags(), Features::new(true, true));
    assert!(!matches!(result, OptionsResult::Help(_)));
    assert!(matches!(result, OptionsResult::Resolved(_)));
}

#[test]
fn help_field() {
    let mut opts = Opts::default();
    opts.help = Some(true);
    opts.color = Some("bogus".to_string());
    assert_eq!(opts.matched_flags().count(Flag::Help), 1);
    let result = resolve(&opts.matched_flags(), Features::new(false, false));
    assert!(matches!(result, OptionsResult::Help(_)));
    opts.help = None;
    assert_eq!(opts.matched_flags().count(Flag::Help), 0);
    assert!(matches!(
        resolve(&opts.matched_flags(), Features::new(false, false)),
        OptionsResult::InvalidOptions(_)
    ));
}

#[test]
fn fields_become_occurrences() {
    let mut opts = Opts::default();
    opts.all = 2;
    opts.long = 1;
    opts.width = Some(80);
    opts.colour = Some("always".to_string());
    opts.no_git = 1;
    assert_eq!(
        opts.occurrences(),
        vec![
            long("long", 1, None),
            long("width", 1, Some("80")),
            long("colour", 1, Some("always")),
            long("all", 2, None),
            long("no-git", 1, None),
        ]
    );
}

#[test]
fn spelling_fields_are_collapsed() {
    let mut american = Opts::default();
    american.color = Some("never".to_string());
    american.color_scale = 1;
    let mut british = Opts::default();
    british.colour = Some("never".to_string());
    british.colour_scale = 1;
    assert_eq!(american.matched_flags(), british.matched_flags());
    let features = Features::new(true, true);
    assert_eq!(
        resolve(&american.matched_flags(), features),
        resolve(&british.matched_flags(), features)
    );
    match resolve(&british.matched_flags(), features) {
        OptionsResult::Resolved(settings) => assert_eq!(settings.color, When::Never),
        other => panic!("{:?}", other),
    }
}

#[test]
fn counts_of_spelling_fields_add_up() {
    let mut opts = Opts::default();
    opts.color_scale = 200;
    opts.colour_scale = 100;
    opts.color = Some("auto".to_string());
    opts.colour = Some("always".to_string());
    let bag = opts.matched_flags();
    assert_eq!(bag.count(Flag::ColorScale), 300);
    assert_eq!(bag.count(Flag::Color), 2);
    assert_eq!(bag.value(Flag::Color), Some("always"));
}

#[test]
fn every_field_reaches_its_flag() {
    let opts = Opts {
        paths: vec!["here".to_string()],
        all: 1,
        git: 2,
        oneline: 3,
        long: 4,
        tree: 5,
        grid: 6,
        across: 7,
        recurse: 8,
        classify: 9,
        dereference: 10,
        width: Some(11),
        color: Some("12".to_string()),
        colour: None,
        color_scale: 13,
        colour_scale: 0,
        almost_all: 14,
        list_dirs: 15,
        level: Some(16),
        reverse: 17,
        sort: Some("18".to_string()),
        ignore_glob: Some("19".to_string()),
        git_ignore: 20,
        dirs_first: 21,
        only_dirs: 22,
        binary: 23,
        bytes: 24,
        group: 25,
        numeric: 26,
        header: 27,
        icons: 28,
        inode: 29,
        links: 30,
        modified: 31,
        changed: 32,
        blocksize: 33,
        time: Some("34".to_string()),
        accessed: 35,
        created: 36,
        time_style: Some("37".to_string()),
        hyperlink: 38,
        no_permissions: 39,
        no_filesize: 40,
        no_user: 41,
        no_time: 42,
        no_icons: 43,
        no_git: 44,
        git_repos: 45,
        git_repos_no_status: 46,
        octal: 47,
        security_context: 48,
        extended: 49,
        help: Some(true),
        mount: 51,
        only_files: 52,
        no_quotes: 53,
    };
    let bag = opts.matched_flags();
    let counts = [
        (Flag::All, 1),
        (Flag::Git, 2),
        (Flag::Oneline, 3),
        (Flag::Long, 4),
        (Flag::Tree, 5),
        (Flag::Grid, 6),
        (Flag::Across, 7),
        (Flag::Recurse, 8),
        (Flag::Classify, 9),
        (Flag::Dereference, 10),
        (Flag::Width, 1),
        (Flag::Color, 1),
        (Flag::ColorScale, 13),
        (Flag::AlmostAll, 14),
        (Flag::ListDirs, 15),
        (Flag::Level, 1),
        (Flag::Reverse, 17),
        (Flag::Sort, 1),
        (Flag::IgnoreGlob, 1),
        (Flag::GitIgnore, 20),
        (Flag::DirsFirst, 21),
        (Flag::OnlyDirs, 22),
        (Flag::Binary, 23),
        (Flag::Bytes, 24),
        (Flag::Group, 25),
        (Flag::Numeric, 26),
        (Flag::Header, 27),
        (Flag::Icons, 28),
        (Flag::Inode, 29),
        (Flag::Links, 30),
        (Flag::Modified, 31),
        (Flag::Changed, 32),
        (Flag::Blocksize, 33),
        (Flag::Time, 1),
        (Flag::Accessed, 35),
        (Flag::Created, 36),
        (Flag::TimeStyle, 1),
        (Flag::Hyperlink, 38),
        (Flag::NoPermissions, 39),
        (Flag::NoFilesize, 40),
        (Flag::NoUser, 41),
        (Flag::NoTime, 42),
        (Flag::NoIcons, 43),
        (Flag::NoGit, 44),
        (Flag::GitRepos, 45),
        (Flag::GitReposNoStatus, 46),
        (Flag::Octal, 47),
        (Flag::SecurityContext, 48),
        (Flag::Extended, 49),
        (Flag::Help, 1),
        (Flag::Mount, 51),
        (Flag::OnlyFiles, 52),
        (Flag::NoQuotes, 53),
    ];
    assert_eq!(counts.len(), 53);
    for (flag, count) in counts {
        assert_eq!(bag.count(flag), count, "{:?}", flag);
    }
    assert_eq!(bag.value(Flag::Width), Some("11"));
    assert_eq!(bag.value(Flag::Color), Some("12"));
    assert_eq!(bag.value(Flag::Level), Some("16"));
    assert_eq!(bag.value(Flag::Sort), Some("18"));
    assert_eq!(bag.value(Flag::IgnoreGlob), Some("19"));
    assert_eq!(bag.value(Flag::Time), Some("34"));
    assert_eq!(bag.value(Flag::TimeStyle), Some("37"));
    assert_eq!(bag.value(Flag::Icons), None);
    assert_eq!(bag.value(Flag::All), None);
}

#[test]
fn settings_from_fields() {
    let mut opts = Opts::default();
    opts.all = 2;
    opts.width = Some(132);
    opts.icons = 1;
    match resolve(&opts.matched_flags(), Features::new(true, true)) {
        OptionsResult::Resolved(settings) => {
            assert_eq!(settings.filter.hidden, HiddenFiles::IncludedWithDots);
            assert_eq!(settings.width, Width::Columns(132));
            assert_eq!(settings.icons, When::Always);
        },
        other => panic!("{:?}", other),
    }
    opts.width = Some(0);
    opts.no_icons = 1;
    match resolve(&opts.matched_flags(), Features::new(true, true)) {
        OptionsResult::Resolved(settings) => {
            assert_eq!(settings.width, Width::Automatic);
            assert_eq!(settings.icons, When::Never);
        },
        other => panic!("{:?}", other),
    }
}

#[test]
fn styles() {
    let styles = get_styles();
    let white = Some(AnsiColor::White);
    let cyan = Some(AnsiColor::BrightCyan);
    let red = Some(AnsiColor::Red);
    let green = Some(AnsiColor::Green);
    assert_eq!(styles.usage, Style { bold: true, underline: true, fg_color: white });
    assert_eq!(styles.header, Style { bold: true, underline: true, fg_color: cyan });
    assert_eq!(styles.literal, Style { bold: false, underline: false, fg_color: cyan });
    assert_eq!(styles.invalid, Style { bold: true, underline: false, fg_color: red });
    assert_eq!(styles.error, Style { bold: true, underline: false, fg_color: red });
    assert_eq!(styles.valid, Style { bold: true, underline: true, fg_color: green });
    assert_eq!(styles.placeholder, Style { bold: false, underline: false, fg_color: white });
}
