use eza_options::bag::{FlagBag, Occurrence, Token};
use eza_options::flags::{Flag, FLAG_COUNT};

fn long(name: &str, count: u8, value: Option<&str>) -> Occurrence {
    Occurrence { token: Token::Long(name.to_string()), count, value: value.map(str::to_string) }
}

fn short(name: char, count: u8) -> Occurrence {
    Occurrence { token: Token::Short(name), count, value: None }
}

const ALL_FLAGS: [Flag; 53] = [
    Flag::All,
    Flag::AlmostAll,
    Flag::Git,
    Flag::Oneline,
    Flag::Long,
    Flag::Tree,
    Flag::Grid,
    Flag::Across,
    Flag::Recurse,
    Flag::Classify,
    Flag::Dereference,
    Flag::Width,
    Flag::Color,
    Flag::ColorScale,
    Flag::ListDirs,
    Flag::Level,
    Flag::Reverse,
    Flag::Sort,
    Flag::IgnoreGlob,
    Flag::GitIgnore,
    Flag::DirsFirst,
    Flag::OnlyDirs,
    Flag::OnlyFiles,
    Flag::Binary,
    Flag::Bytes,
    Flag::Group,
    Flag::Numeric,
    Flag::Header,
    Flag::Icons,
    Flag::Inode,
    Flag::Links,
    Flag::Modified,
    Flag::Changed,
    Flag::Accessed,
    Flag::Created,
    Flag::Blocksize,
    Flag::Time,
    Flag::TimeStyle,
    Flag::Hyperlink,
    Flag::NoPermissions,
    Flag::NoFilesize,
    Flag::NoUser,
    Flag::NoTime,
    Flag::NoIcons,
    Flag::NoGit,
    Flag::NoQuotes,
    Flag::GitRepos,
    Flag::GitReposNoStatus,
    Flag::Octal,
    Flag::SecurityContext,
    Flag::Extended,
    Flag::Mount,
    Flag::Help,
];

#[test]
fn empty_bag_holds_nothing() {
    let bag = FlagBag::from_occurrences(&vec![]);
    for flag in ALL_FLAGS {
        assert_eq!(bag.count(flag), 0);
        assert!(!bag.has(flag));
        assert_eq!(bag.value(flag), None);
    }
}

#[test]
fn counts_of_all_spellings_are_summed() {
    let bag = FlagBag::from_occurrences(&vec![
        long("color-scale", 2, None),
        long("all", 1, None),
        long("colour-scale", 3, None),
        short('a', 2),
        long("octal-permissions", 1, None),
        short('o', 1),
        long("octal", 1, None),
        long("octal-permission", 4, None),
    ]);
    assert_eq!(bag.count(Flag::ColorScale), 5);
    assert_eq!(bag.count(Flag::All), 3);
    assert_eq!(bag.count(Flag::Octal), 7);
    assert_eq!(bag.count(Flag::Color), 0);
    assert!(bag.has(Flag::All));
    assert!(!bag.has(Flag::AlmostAll));
}

#[test]
fn repeat_counts_are_kept() {
    let bag = FlagBag::from_occurrences(&vec![short('a', 255), short('a', 255), short('l', 0)]);
    assert_eq!(bag.count(Flag::All), 510);
    assert_eq!(bag.count(Flag::Long), 0);
    assert!(!bag.has(Flag::Long));
}

#[test]
fn last_value_is_kept() {
    let bag = FlagBag::from_occurrences(&vec![
        long("color", 1, Some("always")),
        long("sort", 1, Some("size")),
        long("colour", 1, Some("never")),
        long("color", 1, None),
    ]);
    assert_eq!(bag.value(Flag::Color), Some("never"));
    assert_eq!(bag.count(Flag::Color), 3);
    assert_eq!(bag.value(Flag::Sort), Some("size"));
    assert_eq!(bag.value(Flag::Time), None);
}

#[test]
fn unknown_spellings_add_nothing() {
    let bag = FlagBag::from_occurrences(&vec![
        long("colr", 1, Some("always")),
        long("", 1, None),
        long("Color", 1, None),
        long("--color", 1, None),
        short('q', 3),
        short('é', 1),
    ]);
    assert_eq!(bag, FlagBag::from_occurrences(&vec![]));
}

#[test]
fn order_of_flags_does_not_matter_for_counts() {
    let one = FlagBag::from_occurrences(&vec![short('a', 1), short('l', 1), short('a', 1)]);
    let other = FlagBag::from_occurrences(&vec![short('l', 1), short('a', 2)]);
    assert_eq!(one, other);
}

#[test]
fn tokens_resolve() {
    assert_eq!(Token::Long("colour".to_string()).flag(), Some(Flag::Color));
    assert_eq!(Token::Long("color".to_string()).flag(), Some(Flag::Color));
    assert_eq!(Token::Short('a').flag(), Some(Flag::All));
    assert_eq!(Token::Short('-').flag(), None);
    assert_eq!(Token::Long("a".to_string()).flag(), None);
}

#[test]
fn every_flag_by_long_and_short_name() {
    assert_eq!(ALL_FLAGS.len(), FLAG_COUNT);
    for (position, flag) in ALL_FLAGS.iter().enumerate() {
        assert_eq!(Flag::from_long(flag.long_name()), Some(*flag));
        if let Some(short) = flag.short_name() {
            assert_eq!(Flag::from_short(short), Some(*flag));
        }
        assert!(flag.index() < FLAG_COUNT);
        for other in &ALL_FLAGS[..position] {
            assert_ne!(other.index(), flag.index());
            assert_ne!(other.long_name(), flag.long_name());
        }
    }
}

#[test]
fn spelling_variants() {
    assert_eq!(Flag::from_long("colour"), Some(Flag::Color));
    assert_eq!(Flag::from_long("colour-scale"), Some(Flag::ColorScale));
    assert_eq!(Flag::from_long("octal-permission"), Some(Flag::Octal));
    assert_eq!(Flag::from_long("octal-permissions"), Some(Flag::Octal));
    assert_eq!(Flag::from_long("mounts"), Some(Flag::Mount));
    assert_eq!(Flag::from_long("context"), Some(Flag::SecurityContext));
    assert_eq!(Flag::from_long("security-context"), None);
    assert_eq!(Flag::from_long("group-directories-first"), Some(Flag::DirsFirst));
    assert_eq!(Flag::from_long("COLOR"), None);
    assert_eq!(Flag::from_long("colo"), None);
    assert_eq!(Flag::from_long("colours"), None);
    assert_eq!(Flag::from_long(""), None);
}

#[test]
fn short_forms() {
    assert_eq!(Flag::from_short('1'), Some(Flag::Oneline));
    assert_eq!(Flag::from_short('l'), Some(Flag::Long));
    assert_eq!(Flag::from_short('L'), Some(Flag::Level));
    assert_eq!(Flag::from_short('@'), Some(Flag::Extended));
    assert_eq!(Flag::from_short('?'), Some(Flag::Help));
    assert_eq!(Flag::from_short('Z'), Some(Flag::SecurityContext));
    assert_eq!(Flag::from_short('z'), None);
    assert_eq!(Flag::Git.short_name(), None);
    assert_eq!(Flag::All.short_name(), Some('a'));
}

#[test]
fn flags_that_take_a_value() {
    let valued = [
        Flag::Width,
        Flag::Color,
        Flag::Level,
        Flag::Sort,
        Flag::IgnoreGlob,
        Flag::Icons,
        Flag::Time,
        Flag::TimeStyle,
    ];
    for flag in ALL_FLAGS {
        assert_eq!(flag.takes_value(), valued.contains(&flag), "{:?}", flag);
    }
}

#[test]
fn value_with_a_flag_that_takes_none_is_dropped() {
    let bag = FlagBag::from_occurrences(&vec![long("git", 1, Some("yes")), long("long", 2, Some(""))]);
    assert_eq!(bag.count(Flag::Git), 1);
    assert_eq!(bag.value(Flag::Git), None);
    assert_eq!(bag.count(Flag::Long), 2);
    assert_eq!(bag.value(Flag::Long), None);
    assert_eq!(bag, FlagBag::from_occurrences(&vec![long("git", 1, None), long("long", 2, None)]));
}
