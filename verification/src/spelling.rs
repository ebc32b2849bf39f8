//! Laws of the spellings of flags.

use crate::flags::Flag;
use vstd::prelude::*;

verus! {

/// Every spelling differs from every other in its length or in its third or
/// fourth character; this makes those known.
proof fn lemma_spellings_differ()
    ensures
        "all"@.len() == 3,
        "all"@[2] == 'l',
        "almost-all"@.len() == 10,
        "almost-all"@[2] == 'm',
        "almost-all"@[3] == 'o',
        "git"@.len() == 3,
        "git"@[2] == 't',
        "oneline"@.len() == 7,
        "oneline"@[2] == 'e',
        "oneline"@[3] == 'l',
        "long"@.len() == 4,
        "long"@[2] == 'n',
        "long"@[3] == 'g',
        "tree"@.len() == 4,
        "tree"@[2] == 'e',
        "tree"@[3] == 'e',
        "grid"@.len() == 4,
        "grid"@[2] == 'i',
        "grid"@[3] == 'd',
        "across"@.len() == 6,
        "across"@[2] == 'r',
        "across"@[3] == 'o',
        "recurse"@.len() == 7,
        "recurse"@[2] == 'c',
        "recurse"@[3] == 'u',
        "classify"@.len() == 8,
        "classify"@[2] == 'a',
        "classify"@[3] == 's',
        "dereference"@.len() == 11,
        "dereference"@[2] == 'r',
        "dereference"@[3] == 'e',
        "width"@.len() == 5,
        "width"@[2] == 'd',
        "width"@[3] == 't',
        "color"@.len() == 5,
        "color"@[2] == 'l',
        "color"@[3] == 'o',
        "color-scale"@.len() == 11,
        "color-scale"@[2] == 'l',
        "color-scale"@[3] == 'o',
        "list-dirs"@.len() == 9,
        "list-dirs"@[2] == 's',
        "list-dirs"@[3] == 't',
        "level"@.len() == 5,
        "level"@[2] == 'v',
        "level"@[3] == 'e',
        "reverse"@.len() == 7,
        "reverse"@[2] == 'v',
        "reverse"@[3] == 'e',
        "sort"@.len() == 4,
        "sort"@[2] == 'r',
        "sort"@[3] == 't',
        "ignore-glob"@.len() == 11,
        "ignore-glob"@[2] == 'n',
        "ignore-glob"@[3] == 'o',
        "git-ignore"@.len() == 10,
        "git-ignore"@[2] == 't',
        "git-ignore"@[3] == '-',
        "group-directories-first"@.len() == 23,
        "group-directories-first"@[2] == 'o',
        "group-directories-first"@[3] == 'u',
        "only-dirs"@.len() == 9,
        "only-dirs"@[2] == 'l',
        "only-dirs"@[3] == 'y',
        "only-files"@.len() == 10,
        "only-files"@[2] == 'l',
        "only-files"@[3] == 'y',
        "binary"@.len() == 6,
        "binary"@[2] == 'n',
        "binary"@[3] == 'a',
        "bytes"@.len() == 5,
        "bytes"@[2] == 't',
        "bytes"@[3] == 'e',
        "group"@.len() == 5,
        "group"@[2] == 'o',
        "group"@[3] == 'u',
        "numeric"@.len() == 7,
        "numeric"@[2] == 'm',
        "numeric"@[3] == 'e',
        "header"@.len() == 6,
        "header"@[2] == 'a',
        "header"@[3] == 'd',
        "icons"@.len() == 5,
        "icons"@[2] == 'o',
        "icons"@[3] == 'n',
        "inode"@.len() == 5,
        "inode"@[2] == 'o',
        "inode"@[3] == 'd',
        "links"@.len() == 5,
        "links"@[2] == 'n',
        "links"@[3] == 'k',
        "modified"@.len() == 8,
        "modified"@[2] == 'd',
        "modified"@[3] == 'i',
        "changed"@.len() == 7,
        "changed"@[2] == 'a',
        "changed"@[3] == 'n',
        "accessed"@.len() == 8,
        "accessed"@[2] == 'c',
        "accessed"@[3] == 'e',
        "created"@.len() == 7,
        "created"@[2] == 'e',
        "created"@[3] == 'a',
        "blocksize"@.len() == 9,
        "blocksize"@[2] == 'o',
        "blocksize"@[3] == 'c',
        "time"@.len() == 4,
        "time"@[2] == 'm',
        "time"@[3] == 'e',
        "time-style"@.len() == 10,
        "time-style"@[2] == 'm',
        "time-style"@[3] == 'e',
        "hyperlink"@.len() == 9,
        "hyperlink"@[2] == 'p',
        "hyperlink"@[3] == 'e',
        "no-permissions"@.len() == 14,
        "no-permissions"@[2] == '-',
        "no-permissions"@[3] == 'p',
        "no-filesize"@.len() == 11,
        "no-filesize"@[2] == '-',
        "no-filesize"@[3] == 'f',
        "no-user"@.len() == 7,
        "no-user"@[2] == '-',
        "no-user"@[3] == 'u',
        "no-time"@.len() == 7,
        "no-time"@[2] == '-',
        "no-time"@[3] == 't',
        "no-icons"@.len() == 8,
        "no-icons"@[2] == '-',
        "no-icons"@[3] == 'i',
        "no-git"@.len() == 6,
        "no-git"@[2] == '-',
        "no-git"@[3] == 'g',
        "no-quotes"@.len() == 9,
        "no-quotes"@[2] == '-',
        "no-quotes"@[3] == 'q',
        "git-repos"@.len() == 9,
        "git-repos"@[2] == 't',
        "git-repos"@[3] == '-',
        "git-repos-no-status"@.len() == 19,
        "git-repos-no-status"@[2] == 't',
        "git-repos-no-status"@[3] == '-',
        "octal"@.len() == 5,
        "octal"@[2] == 't',
        "octal"@[3] == 'a',
        "context"@.len() == 7,
        "context"@[2] == 'n',
        "context"@[3] == 't',
        "extended"@.len() == 8,
        "extended"@[2] == 't',
        "extended"@[3] == 'e',
        "mount"@.len() == 5,
        "mount"@[2] == 'u',
        "mount"@[3] == 'n',
        "help"@.len() == 4,
        "help"@[2] == 'l',
        "help"@[3] == 'p',
        "colour"@.len() == 6,
        "colour"@[2] == 'l',
        "colour"@[3] == 'o',
        "colour-scale"@.len() == 12,
        "colour-scale"@[2] == 'l',
        "colour-scale"@[3] == 'o',
        "octal-permission"@.len() == 16,
        "octal-permission"@[2] == 't',
        "octal-permission"@[3] == 'a',
        "octal-permissions"@.len() == 17,
        "octal-permissions"@[2] == 't',
        "octal-permissions"@[3] == 'a',
        "mounts"@.len() == 6,
        "mounts"@[2] == 'u',
        "mounts"@[3] == 'n',
{
    reveal_strlit("all");
    reveal_strlit("almost-all");
    reveal_strlit("git");
    reveal_strlit("oneline");
    reveal_strlit("long");
    reveal_strlit("tree");
    reveal_strlit("grid");
    reveal_strlit("across");
    reveal_strlit("recurse");
    reveal_strlit("classify");
    reveal_strlit("dereference");
    reveal_strlit("width");
    reveal_strlit("color");
    reveal_strlit("color-scale");
    reveal_strlit("list-dirs");
    reveal_strlit("level");
    reveal_strlit("reverse");
    reveal_strlit("sort");
    reveal_strlit("ignore-glob");
    reveal_strlit("git-ignore");
    reveal_strlit("group-directories-first");
    reveal_strlit("only-dirs");
    reveal_strlit("only-files");
    reveal_strlit("binary");
    reveal_strlit("bytes");
    reveal_strlit("group");
    reveal_strlit("numeric");
    reveal_strlit("header");
    reveal_strlit("icons");
    reveal_strlit("inode");
    reveal_strlit("links");
    reveal_strlit("modified");
    reveal_strlit("changed");
    reveal_strlit("accessed");
    reveal_strlit("created");
    reveal_strlit("blocksize");
    reveal_strlit("time");
    reveal_strlit("time-style");
    reveal_strlit("hyperlink");
    reveal_strlit("no-permissions");
    reveal_strlit("no-filesize");
    reveal_strlit("no-user");
    reveal_strlit("no-time");
    reveal_strlit("no-icons");
    reveal_strlit("no-git");
    reveal_strlit("no-quotes");
    reveal_strlit("git-repos");
    reveal_strlit("git-repos-no-status");
    reveal_strlit("octal");
    reveal_strlit("context");
    reveal_strlit("extended");
    reveal_strlit("mount");
    reveal_strlit("help");
    reveal_strlit("colour");
    reveal_strlit("colour-scale");
    reveal_strlit("octal-permission");
    reveal_strlit("octal-permissions");
    reveal_strlit("mounts");
}

/// The canonical long name of a flag resolves to that flag.
pub proof fn lemma_long_name_resolves(flag: Flag)
    ensures
        Flag::spec_from_long(flag.spec_long_name()) == Some(flag),
{
    reveal(Flag::spec_from_long);
    lemma_spellings_differ();
}

/// The short form of a flag resolves to that flag, as its long name does.
pub proof fn lemma_short_name_resolves(flag: Flag)
    ensures
        flag.spec_short_name() matches Some(short) ==> Flag::spec_from_short(short)
            == Flag::spec_from_long(flag.spec_long_name()),
        flag.spec_short_name() matches Some(short) ==> Flag::spec_from_short(short) == Some(
            flag,
        ),
{
    lemma_long_name_resolves(flag);
}

/// The documented spelling variants resolve to the flag of the spelling
/// that they vary.
pub proof fn lemma_spelling_variants()
    ensures
        Flag::spec_from_long("colour"@) == Some(Flag::Color),
        Flag::spec_from_long("colour"@) == Flag::spec_from_long("color"@),
        Flag::spec_from_long("colour-scale"@) == Some(Flag::ColorScale),
        Flag::spec_from_long("colour-scale"@) == Flag::spec_from_long("color-scale"@),
        Flag::spec_from_long("octal-permission"@) == Some(Flag::Octal),
        Flag::spec_from_long("octal-permission"@) == Flag::spec_from_long("octal"@),
        Flag::spec_from_long("octal-permissions"@) == Some(Flag::Octal),
        Flag::spec_from_long("octal-permissions"@) == Flag::spec_from_long("octal"@),
        Flag::spec_from_long("mounts"@) == Some(Flag::Mount),
        Flag::spec_from_long("mounts"@) == Flag::spec_from_long("mount"@),
{
    reveal(Flag::spec_from_long);
    lemma_spellings_differ();
}

/// A long spelling resolves to a flag exactly when it is one of the
/// spellings of that flag.
pub proof fn lemma_resolves_iff_spelled(name: Seq<char>, flag: Flag)
    ensures
        Flag::spec_from_long(name) == Some(flag) <==> flag.spec_spellings().contains(name),
{
    reveal(Flag::spec_from_long);
    lemma_spellings_differ();
    let spellings = flag.spec_spellings();
    if Flag::spec_from_long(name) == Some(flag) {
        assert(spellings[0] == name || (spellings.len() > 1 && spellings[1] == name) || (
        spellings.len() > 2 && spellings[2] == name));
    }
    if spellings.contains(name) {
        let i = choose|i: int| 0 <= i < spellings.len() && spellings[i] == name;
        assert(spellings[i] == name);
    }
}

/// A short form resolves to a flag exactly when it is the short form of
/// that flag.
pub proof fn lemma_resolves_iff_short(short: char, flag: Flag)
    ensures
        Flag::spec_from_short(short) == Some(flag) <==> flag.spec_short_name() == Some(short),
{
}

/// Every spelling resolves to its flag.
pub proof fn lemma_every_spelling_resolves()
    ensures
        Flag::spec_from_long("all"@) == Some(Flag::All),
        Flag::spec_from_long("almost-all"@) == Some(Flag::AlmostAll),
        Flag::spec_from_long("git"@) == Some(Flag::Git),
        Flag::spec_from_long("oneline"@) == Some(Flag::Oneline),
        Flag::spec_from_long("long"@) == Some(Flag::Long),
        Flag::spec_from_long("tree"@) == Some(Flag::Tree),
        Flag::spec_from_long("grid"@) == Some(Flag::Grid),
        Flag::spec_from_long("across"@) == Some(Flag::Across),
        Flag::spec_from_long("recurse"@) == Some(Flag::Recurse),
        Flag::spec_from_long("classify"@) == Some(Flag::Classify),
        Flag::spec_from_long("dereference"@) == Some(Flag::Dereference),
        Flag::spec_from_long("width"@) == Some(Flag::Width),
        Flag::spec_from_long("color"@) == Some(Flag::Color),
        Flag::spec_from_long("colour"@) == Some(Flag::Color),
        Flag::spec_from_long("color-scale"@) == Some(Flag::ColorScale),
        Flag::spec_from_long("colour-scale"@) == Some(Flag::ColorScale),
        Flag::spec_from_long("list-dirs"@) == Some(Flag::ListDirs),
        Flag::spec_from_long("level"@) == Some(Flag::Level),
        Flag::spec_from_long("reverse"@) == Some(Flag::Reverse),
        Flag::spec_from_long("sort"@) == Some(Flag::Sort),
        Flag::spec_from_long("ignore-glob"@) == Some(Flag::IgnoreGlob),
        Flag::spec_from_long("git-ignore"@) == Some(Flag::GitIgnore),
        Flag::spec_from_long("group-directories-first"@) == Some(Flag::DirsFirst),
        Flag::spec_from_long("only-dirs"@) == Some(Flag::OnlyDirs),
        Flag::spec_from_long("only-files"@) == Some(Flag::OnlyFiles),
        Flag::spec_from_long("binary"@) == Some(Flag::Binary),
        Flag::spec_from_long("bytes"@) == Some(Flag::Bytes),
        Flag::spec_from_long("group"@) == Some(Flag::Group),
        Flag::spec_from_long("numeric"@) == Some(Flag::Numeric),
        Flag::spec_from_long("header"@) == Some(Flag::Header),
        Flag::spec_from_long("icons"@) == Some(Flag::Icons),
        Flag::spec_from_long("inode"@) == Some(Flag::Inode),
        Flag::spec_from_long("links"@) == Some(Flag::Links),
        Flag::spec_from_long("modified"@) == Some(Flag::Modified),
        Flag::spec_from_long("changed"@) == Some(Flag::Changed),
        Flag::spec_from_long("accessed"@) == Some(Flag::Accessed),
        Flag::spec_from_long("created"@) == Some(Flag::Created),
        Flag::spec_from_long("blocksize"@) == Some(Flag::Blocksize),
        Flag::spec_from_long("time"@) == Some(Flag::Time),
        Flag::spec_from_long("time-style"@) == Some(Flag::TimeStyle),
        Flag::spec_from_long("hyperlink"@) == Some(Flag::Hyperlink),
        Flag::spec_from_long("no-permissions"@) == Some(Flag::NoPermissions),
        Flag::spec_from_long("no-filesize"@) == Some(Flag::NoFilesize),
        Flag::spec_from_long("no-user"@) == Some(Flag::NoUser),
        Flag::spec_from_long("no-time"@) == Some(Flag::NoTime),
        Flag::spec_from_long("no-icons"@) == Some(Flag::NoIcons),
        Flag::spec_from_long("no-git"@) == Some(Flag::NoGit),
        Flag::spec_from_long("no-quotes"@) == Some(Flag::NoQuotes),
        Flag::spec_from_long("git-repos"@) == Some(Flag::GitRepos),
        Flag::spec_from_long("git-repos-no-status"@) == Some(Flag::GitReposNoStatus),
        Flag::spec_from_long("octal"@) == Some(Flag::Octal),
        Flag::spec_from_long("octal-permission"@) == Some(Flag::Octal),
        Flag::spec_from_long("octal-permissions"@) == Some(Flag::Octal),
        Flag::spec_from_long("context"@) == Some(Flag::SecurityContext),
        Flag::spec_from_long("extended"@) == Some(Flag::Extended),
        Flag::spec_from_long("mount"@) == Some(Flag::Mount),
        Flag::spec_from_long("mounts"@) == Some(Flag::Mount),
        Flag::spec_from_long("help"@) == Some(Flag::Help),
{
    reveal(Flag::spec_from_long);
    lemma_spellings_differ();
}

} // verus!
