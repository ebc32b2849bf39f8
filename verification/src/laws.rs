//! Laws of the resolution of flags.

use crate::bag::{BagView, OccurrenceView};
use crate::columns::{Columns, TimeField};
use crate::features::Features;
use crate::filter::{Filter, HiddenFiles};
use crate::flags::Flag;
use crate::git::GitPolicy;
use crate::options::{spec_resolve, OptionsResultView};
use crate::settings::Settings;
use crate::theme::When;
use vstd::prelude::*;

verus! {

/// Whether two sequences of occurrences differ at most in how their flags
/// are spelled: occurrence by occurrence, the spellings resolve to the same
/// flag, and the counts and values are the same.
pub open spec fn same_but_for_spelling(a: Seq<OccurrenceView>, b: Seq<OccurrenceView>) -> bool {
    &&& a.len() == b.len()
    &&& forall|i: int|
        0 <= i < a.len() ==> {
            &&& (#[trigger] a[i]).token.flag() == (#[trigger] b[i]).token.flag()
            &&& a[i].count == b[i].count
            &&& a[i].value == b[i].value
        }
}

/// How a flag is spelled makes no difference: two command lines that
/// differ only in the spelling of their flags give the same bag, and so the
/// same help, settings or failures.
pub proof fn lemma_spelling_makes_no_difference(
    a: Seq<OccurrenceView>,
    b: Seq<OccurrenceView>,
    features: Features,
)
    requires
        same_but_for_spelling(a, b),
    ensures
        BagView::of(a) == BagView::of(b),
        Settings::spec_deduce(BagView::of(a), features) == Settings::spec_deduce(
            BagView::of(b),
            features,
        ),
        spec_resolve(BagView::of(a), features) == spec_resolve(BagView::of(b), features),
    decreases a.len(),
{
    if a.len() > 0 {
        assert(a.last().token.flag() == b.last().token.flag()) by {
            assert(a[a.len() - 1].token.flag() == b[a.len() - 1].token.flag());
        }
        assert(same_but_for_spelling(a.drop_last(), b.drop_last())) by {
            assert forall|i: int| 0 <= i < a.drop_last().len() implies {
                &&& (#[trigger] a.drop_last()[i]).token.flag() == (
                #[trigger] b.drop_last()[i]).token.flag()
                &&& a.drop_last()[i].count == b.drop_last()[i].count
                &&& a.drop_last()[i].value == b.drop_last()[i].value
            } by {
                assert(a.drop_last()[i] == a[i]);
                assert(b.drop_last()[i] == b[i]);
            }
        }
        lemma_spelling_makes_no_difference(a.drop_last(), b.drop_last(), features);
    }
}

/// The bag of a sequence of occurrences holds, for every flag, the sum of
/// the counts of all its spellings and the value that was supplied last.
pub proof fn lemma_bag_sums_counts_and_keeps_last_value(
    occurrences: Seq<OccurrenceView>,
    flag: Flag,
)
    ensures
        BagView::of(occurrences).counts.dom().contains(flag),
        BagView::of(occurrences).count(flag) == BagView::total(occurrences, flag),
        BagView::of(occurrences).value(flag) == BagView::last_value(occurrences, flag),
    decreases occurrences.len(),
{
    if occurrences.len() > 0 {
        lemma_bag_sums_counts_and_keeps_last_value(occurrences.drop_last(), flag);
        match occurrences.last().token.flag() {
            Some(other) => {
                lemma_bag_sums_counts_and_keeps_last_value(occurrences.drop_last(), other);
            },
            None => {},
        }
    }
}

/// Of two sequences of occurrences one after the other, the counts add up
/// and a value of the second is kept before a value of the first.
pub proof fn lemma_total_of_concatenation(
    first: Seq<OccurrenceView>,
    second: Seq<OccurrenceView>,
    flag: Flag,
)
    ensures
        BagView::total(first + second, flag) == BagView::total(first, flag) + BagView::total(
            second,
            flag,
        ),
        BagView::last_value(first + second, flag) == if BagView::last_value(second, flag)
            is Some {
            BagView::last_value(second, flag)
        } else {
            BagView::last_value(first, flag)
        },
    decreases second.len(),
{
    if second.len() == 0 {
        assert(first + second =~= first);
    } else {
        assert((first + second).drop_last() =~= first + second.drop_last());
        assert((first + second).last() == second.last());
        lemma_total_of_concatenation(first, second.drop_last(), flag);
    }
}

/// A bag holds a value only for a flag that takes one.
pub proof fn lemma_only_value_flags_hold_values(occurrences: Seq<OccurrenceView>, flag: Flag)
    ensures
        BagView::of(occurrences).value(flag) is Some ==> flag.spec_takes_value(),
    decreases occurrences.len(),
{
    if occurrences.len() > 0 {
        lemma_only_value_flags_hold_values(occurrences.drop_last(), flag);
    }
}

/// A flag is present in the bag exactly when some occurrence of one of its
/// spellings has a count above zero, wherever in the sequence it stands.
pub proof fn lemma_presence(occurrences: Seq<OccurrenceView>, flag: Flag)
    ensures
        BagView::of(occurrences).has(flag) <==> exists|i: int|
            0 <= i < occurrences.len() && (#[trigger] occurrences[i]).token.flag() == Some(flag)
                && occurrences[i].count > 0,
    decreases occurrences.len(),
{
    lemma_bag_sums_counts_and_keeps_last_value(occurrences, flag);
    if occurrences.len() > 0 {
        let shorter = occurrences.drop_last();
        lemma_presence(shorter, flag);
        lemma_bag_sums_counts_and_keeps_last_value(shorter, flag);
        let last = occurrences.len() - 1;
        if BagView::of(occurrences).has(flag) {
            if BagView::of(shorter).has(flag) {
                let i = choose|i: int|
                    0 <= i < shorter.len() && (#[trigger] shorter[i]).token.flag() == Some(flag)
                        && shorter[i].count > 0;
                assert(occurrences[i] == shorter[i]);
            } else {
                assert(occurrences[last].token.flag() == Some(flag) && occurrences[last].count
                    > 0);
            }
        }
        if exists|i: int|
            0 <= i < occurrences.len() && (#[trigger] occurrences[i]).token.flag() == Some(flag)
                && occurrences[i].count > 0 {
            let i = choose|i: int|
                0 <= i < occurrences.len() && (#[trigger] occurrences[i]).token.flag() == Some(
                    flag,
                ) && occurrences[i].count > 0;
            if i < last {
                assert(shorter[i] == occurrences[i]);
            }
        }
    }
}

/// Without `almost-all`, the number of `all` flags decides between exactly
/// three policies for hidden files: none, one, and two or more. More than
/// two change nothing.
pub proof fn lemma_hidden_files_by_count(bag: BagView, features: Features)
    requires
        !bag.has(Flag::AlmostAll),
    ensures
        bag.count(Flag::All) == 0 ==> HiddenFiles::spec_deduce(bag) == HiddenFiles::Excluded,
        bag.count(Flag::All) == 1 ==> HiddenFiles::spec_deduce(bag) == HiddenFiles::Included,
        bag.count(Flag::All) >= 2 ==> HiddenFiles::spec_deduce(bag)
            == HiddenFiles::IncludedWithDots,
        HiddenFiles::Excluded != HiddenFiles::Included,
        HiddenFiles::Included != HiddenFiles::IncludedWithDots,
        HiddenFiles::Excluded != HiddenFiles::IncludedWithDots,
        Settings::spec_deduce(bag, features) matches Ok(settings) ==> settings.filter.hidden
            == HiddenFiles::spec_deduce(bag),
{
}

/// Two `all` flags and any larger number of them give the same policy.
pub proof fn lemma_hidden_files_beyond_two(all: nat, almost_all: bool)
    requires
        all >= 2,
    ensures
        HiddenFiles::spec_of_counts(all, almost_all) == HiddenFiles::spec_of_counts(
            2,
            almost_all,
        ),
{
}

/// A flag that suppresses something wins over every flag that asks for it.
///
/// `no-git` disables Git status whatever `git`, `git-repos` and
/// `git-repos-no-status` ask for; `no-icons` turns icons off whatever came
/// with `icons`; `no-time` hides the time column and the value of `time` is
/// not looked at; `no-permissions`, `no-filesize` and `no-user` hide their
/// columns.
pub proof fn lemma_suppression_wins(bag: BagView, features: Features)
    ensures
        bag.has(Flag::NoGit) ==> GitPolicy::spec_deduce(bag, features).spec_is_disabled(),
        bag.has(Flag::NoIcons) ==> When::spec_icons(bag) == Ok::<
            When,
            crate::error::DeductionErrorView,
        >(When::Never),
        bag.has(Flag::NoTime) ==> !Columns::spec_deduce(bag, features).time
            && TimeField::spec_deduce(bag) is Ok,
        bag.has(Flag::NoPermissions) ==> !Columns::spec_deduce(bag, features).permissions,
        bag.has(Flag::NoFilesize) ==> !Columns::spec_deduce(bag, features).filesize,
        bag.has(Flag::NoUser) ==> !Columns::spec_deduce(bag, features).user,
        Settings::spec_deduce(bag, features) matches Ok(settings) ==> {
            &&& bag.has(Flag::NoGit) ==> settings.git.spec_is_disabled()
            &&& bag.has(Flag::NoIcons) ==> settings.icons == When::Never
            &&& bag.has(Flag::NoTime) ==> !settings.columns.time
        },
{
}

/// A suppressing flag wins wherever it stands on the command line and
/// however often the flag that it overrides is repeated: one occurrence of
/// `no-git` or of `no-icons` anywhere among the occurrences is enough.
pub proof fn lemma_suppression_wins_anywhere(
    occurrences: Seq<OccurrenceView>,
    i: int,
    features: Features,
)
    requires
        0 <= i < occurrences.len(),
        occurrences[i].count > 0,
    ensures
        occurrences[i].token.flag() == Some(Flag::NoGit) ==> GitPolicy::spec_deduce(
            BagView::of(occurrences),
            features,
        ).spec_is_disabled(),
        occurrences[i].token.flag() == Some(Flag::NoIcons) ==> When::spec_icons(
            BagView::of(occurrences),
        ) == Ok::<When, crate::error::DeductionErrorView>(When::Never),
        occurrences[i].token.flag() == Some(Flag::NoTime) ==> !Columns::spec_deduce(
            BagView::of(occurrences),
            features,
        ).time,
{
    lemma_presence(occurrences, Flag::NoGit);
    lemma_presence(occurrences, Flag::NoIcons);
    lemma_presence(occurrences, Flag::NoTime);
}

/// A request for help is answered whatever else the command line holds:
/// one occurrence of the help flag anywhere is enough, and no failure is
/// reported, whatever the other flags are.
pub proof fn lemma_help_wins_anywhere(
    occurrences: Seq<OccurrenceView>,
    i: int,
    features: Features,
)
    requires
        0 <= i < occurrences.len(),
        occurrences[i].token.flag() == Some(Flag::Help),
        occurrences[i].count > 0,
    ensures
        spec_resolve(BagView::of(occurrences), features) == OptionsResultView::Help,
{
    lemma_presence(occurrences, Flag::Help);
}

/// Whether the flag only has a meaning in a build with Git support.
pub open spec fn needs_git(flag: Flag) -> bool {
    flag == Flag::Git || flag == Flag::NoGit || flag == Flag::GitRepos || flag
        == Flag::GitReposNoStatus || flag == Flag::GitIgnore
}

/// Whether the flag only has a meaning in a build with extended-attribute
/// support.
pub open spec fn needs_xattr(flag: Flag) -> bool {
    flag == Flag::Extended || flag == Flag::SecurityContext
}

/// In a build without Git support, Git status is disabled and a flag that
/// needs Git support has no effect at all: it changes neither the settings
/// nor the failures, and causes no failure of its own.
pub proof fn lemma_git_flags_without_git_support(
    bag: BagView,
    flag: Flag,
    count: nat,
    value: Option<Seq<char>>,
    features: Features,
)
    requires
        !features.git,
        needs_git(flag),
    ensures
        GitPolicy::spec_deduce(bag, features).spec_is_disabled(),
        GitPolicy::spec_deduce(bag.add(flag, count, value), features).spec_is_disabled(),
        !Filter::spec_deduce(bag.add(flag, count, value), features).git_ignore,
        Settings::spec_failures(bag.add(flag, count, value)) == Settings::spec_failures(bag),
        Settings::spec_deduce(bag.add(flag, count, value), features) == Settings::spec_deduce(
            bag,
            features,
        ),
        spec_resolve(bag.add(flag, count, value), features) == spec_resolve(bag, features),
{
    lemma_other_flags_unchanged(bag, flag, count, value);
    lemma_settings_read(bag, bag.add(flag, count, value), features);
}

/// In a build without extended-attribute support, a flag that needs it has
/// no effect at all.
pub proof fn lemma_xattr_flags_without_xattr_support(
    bag: BagView,
    flag: Flag,
    count: nat,
    value: Option<Seq<char>>,
    features: Features,
)
    requires
        !features.xattr,
        needs_xattr(flag),
    ensures
        !Columns::spec_deduce(bag.add(flag, count, value), features).extended,
        !Columns::spec_deduce(bag.add(flag, count, value), features).security_context,
        Settings::spec_deduce(bag.add(flag, count, value), features) == Settings::spec_deduce(
            bag,
            features,
        ),
        spec_resolve(bag.add(flag, count, value), features) == spec_resolve(bag, features),
{
    lemma_other_flags_unchanged(bag, flag, count, value);
    lemma_settings_read(bag, bag.add(flag, count, value), features);
}

/// More occurrences of one flag leave what the bag holds of every other
/// flag as it is.
pub proof fn lemma_other_flags_unchanged(
    bag: BagView,
    flag: Flag,
    count: nat,
    value: Option<Seq<char>>,
)
    ensures
        forall|other: Flag|
            other != flag ==> #[trigger] bag.add(flag, count, value).count(other) == bag.count(
                other,
            ),
        forall|other: Flag|
            other != flag ==> #[trigger] bag.add(flag, count, value).has(other) == bag.has(
                other,
            ),
        forall|other: Flag|
            other != flag ==> #[trigger] bag.add(flag, count, value).value(other) == bag.value(
                other,
            ),
        forall|other: Flag|
            other != flag ==> #[trigger] same_of(bag, bag.add(flag, count, value), other),
        bag.add(flag, count, value).count(flag) == bag.count(flag) + count,
{
}

/// Whether two bags hold the same of a flag.
pub open spec fn same_of(a: BagView, b: BagView, flag: Flag) -> bool {
    a.count(flag) == b.count(flag) && a.value(flag) == b.value(flag)
}

/// Whether two bags hold the same of every flag that the settings of a
/// build depend on. The flags that need a subsystem count only in a build
/// that has it.
pub open spec fn same_where_read(a: BagView, b: BagView, features: Features) -> bool {
    &&& forall|flag: Flag|
        !needs_git(flag) && !needs_xattr(flag) ==> #[trigger] same_of(a, b, flag)
    &&& features.git ==> forall|flag: Flag| needs_git(flag) ==> #[trigger] same_of(a, b, flag)
    &&& features.xattr ==> forall|flag: Flag|
        needs_xattr(flag) ==> #[trigger] same_of(a, b, flag)
}

/// The display mode, sort order and width depend on their own flags only.
proof fn lemma_display_read(a: BagView, b: BagView)
    requires
        same_of(a, b, Flag::Long),
        same_of(a, b, Flag::Tree),
        same_of(a, b, Flag::Oneline),
        same_of(a, b, Flag::Across),
        same_of(a, b, Flag::Width),
        same_of(a, b, Flag::Sort),
        same_of(a, b, Flag::Reverse),
    ensures
        crate::display::Mode::spec_deduce(a) == crate::display::Mode::spec_deduce(b),
        crate::display::Width::spec_deduce(a) == crate::display::Width::spec_deduce(b),
        crate::sort::SortField::spec_deduce(a) == crate::sort::SortField::spec_deduce(b),
        crate::sort::SortDirection::spec_deduce(a) == crate::sort::SortDirection::spec_deduce(b),
{
}

/// The colour and icon policies and the timestamp field depend on their
/// own flags only.
proof fn lemma_theme_read(a: BagView, b: BagView)
    requires
        same_of(a, b, Flag::Color),
        same_of(a, b, Flag::Icons),
        same_of(a, b, Flag::NoIcons),
        same_of(a, b, Flag::Time),
        same_of(a, b, Flag::NoTime),
        same_of(a, b, Flag::Modified),
        same_of(a, b, Flag::Created),
        same_of(a, b, Flag::Accessed),
        same_of(a, b, Flag::Changed),
    ensures
        When::spec_color(a) == When::spec_color(b),
        When::spec_icons(a) == When::spec_icons(b),
        TimeField::spec_deduce(a) == TimeField::spec_deduce(b),
{
}

/// The filter depends on its own flags only, and on `git-ignore` only in a
/// build with Git support.
proof fn lemma_filter_read(a: BagView, b: BagView, features: Features)
    requires
        same_of(a, b, Flag::All),
        same_of(a, b, Flag::AlmostAll),
        same_of(a, b, Flag::OnlyDirs),
        same_of(a, b, Flag::OnlyFiles),
        same_of(a, b, Flag::IgnoreGlob),
        features.git ==> same_of(a, b, Flag::GitIgnore),
    ensures
        Filter::spec_deduce(a, features) == Filter::spec_deduce(b, features),
{
}

/// The columns depend on their own flags only, and on the flags that need
/// extended-attribute support only in a build that has it.
proof fn lemma_columns_read(a: BagView, b: BagView, features: Features)
    requires
        same_of(a, b, Flag::NoPermissions),
        same_of(a, b, Flag::Octal),
        same_of(a, b, Flag::NoFilesize),
        same_of(a, b, Flag::Bytes),
        same_of(a, b, Flag::Binary),
        same_of(a, b, Flag::NoUser),
        same_of(a, b, Flag::Group),
        same_of(a, b, Flag::NoTime),
        same_of(a, b, Flag::Inode),
        same_of(a, b, Flag::Links),
        same_of(a, b, Flag::Blocksize),
        same_of(a, b, Flag::Header),
        same_of(a, b, Flag::Numeric),
        features.xattr ==> same_of(a, b, Flag::Extended),
        features.xattr ==> same_of(a, b, Flag::SecurityContext),
    ensures
        Columns::spec_deduce(a, features) == Columns::spec_deduce(b, features),
{
}

/// The Git policy depends on the flags that need Git support only, and on
/// none in a build without it.
proof fn lemma_git_read(a: BagView, b: BagView, features: Features)
    requires
        features.git ==> same_of(a, b, Flag::Git),
        features.git ==> same_of(a, b, Flag::NoGit),
        features.git ==> same_of(a, b, Flag::GitRepos),
        features.git ==> same_of(a, b, Flag::GitReposNoStatus),
    ensures
        GitPolicy::spec_deduce(a, features) == GitPolicy::spec_deduce(b, features),
{
}

/// Two bags that hold the same of every flag that the settings of a build
/// depend on, and of the help flag, resolve alike.
pub proof fn lemma_settings_read(a: BagView, b: BagView, features: Features)
    requires
        same_where_read(a, b, features),
    ensures
        Settings::spec_failures(a) == Settings::spec_failures(b),
        Settings::spec_deduce(a, features) == Settings::spec_deduce(b, features),
        spec_resolve(a, features) == spec_resolve(b, features),
{
    assert(same_of(a, b, Flag::Long) && same_of(a, b, Flag::Tree) && same_of(a, b, Flag::Oneline)
        && same_of(a, b, Flag::Across) && same_of(a, b, Flag::Width) && same_of(
        a,
        b,
        Flag::Sort,
    ) && same_of(a, b, Flag::Reverse));
    lemma_display_read(a, b);
    assert(same_of(a, b, Flag::Color) && same_of(a, b, Flag::Icons) && same_of(
        a,
        b,
        Flag::NoIcons,
    ) && same_of(a, b, Flag::Time) && same_of(a, b, Flag::NoTime) && same_of(
        a,
        b,
        Flag::Modified,
    ) && same_of(a, b, Flag::Created) && same_of(a, b, Flag::Accessed) && same_of(
        a,
        b,
        Flag::Changed,
    ));
    lemma_theme_read(a, b);
    assert(same_of(a, b, Flag::All) && same_of(a, b, Flag::AlmostAll) && same_of(
        a,
        b,
        Flag::OnlyDirs,
    ) && same_of(a, b, Flag::OnlyFiles) && same_of(a, b, Flag::IgnoreGlob));
    assert(features.git ==> same_of(a, b, Flag::GitIgnore)) by {
        assert(needs_git(Flag::GitIgnore));
    }
    lemma_filter_read(a, b, features);
    assert(same_of(a, b, Flag::NoPermissions) && same_of(a, b, Flag::Octal) && same_of(
        a,
        b,
        Flag::NoFilesize,
    ) && same_of(a, b, Flag::Bytes) && same_of(a, b, Flag::Binary) && same_of(
        a,
        b,
        Flag::NoUser,
    ) && same_of(a, b, Flag::Group) && same_of(a, b, Flag::Inode) && same_of(a, b, Flag::Links)
        && same_of(a, b, Flag::Blocksize) && same_of(a, b, Flag::Header) && same_of(
        a,
        b,
        Flag::Numeric,
    ));
    assert(features.xattr ==> same_of(a, b, Flag::Extended) && same_of(
        a,
        b,
        Flag::SecurityContext,
    )) by {
        assert(needs_xattr(Flag::Extended) && needs_xattr(Flag::SecurityContext));
    }
    lemma_columns_read(a, b, features);
    assert(features.git ==> same_of(a, b, Flag::Git) && same_of(a, b, Flag::NoGit) && same_of(
        a,
        b,
        Flag::GitRepos,
    ) && same_of(a, b, Flag::GitReposNoStatus)) by {
        assert(needs_git(Flag::Git) && needs_git(Flag::NoGit) && needs_git(Flag::GitRepos)
            && needs_git(Flag::GitReposNoStatus));
    }
    lemma_git_read(a, b, features);
    assert(same_of(a, b, Flag::Help));
}

/// The words that a failure lists as legal are exactly the words that the
/// flag accepts.
pub proof fn lemma_legal_values_are_accepted(word: Seq<char>)
    ensures
        crate::error::spec_legal_values(Flag::Color).contains(word) <==> When::spec_parse(word)
            is Some,
        crate::error::spec_legal_values(Flag::Icons).contains(word) <==> When::spec_parse(word)
            is Some,
        crate::error::spec_legal_values(Flag::Sort).contains(word)
            <==> crate::sort::SortField::spec_parse(word) is Some,
        crate::error::spec_legal_values(Flag::Time).contains(word) <==> TimeField::spec_parse(
            word,
        ) is Some,
{
    let when = crate::error::spec_legal_values(Flag::Color);
    let sort = crate::error::spec_legal_values(Flag::Sort);
    let time = crate::error::spec_legal_values(Flag::Time);
    if When::spec_parse(word) is Some {
        assert(when[0] == word || when[1] == word || when[2] == word);
    }
    if crate::sort::SortField::spec_parse(word) is Some {
        assert(sort[0] == word || sort[1] == word || sort[2] == word || sort[3] == word || sort[4]
            == word || sort[5] == word || sort[6] == word || sort[7] == word || sort[8] == word
            || sort[9] == word || sort[10] == word || sort[11] == word || sort[12] == word
            || sort[13] == word || sort[14] == word);
    }
    if TimeField::spec_parse(word) is Some {
        assert(time[0] == word || time[1] == word || time[2] == word);
    }
}

/// Two sequences of occurrences that hold the same total and the same last
/// value of every flag give the same bag.
pub proof fn lemma_same_totals_same_bag(a: Seq<OccurrenceView>, b: Seq<OccurrenceView>)
    requires
        forall|flag: Flag| #[trigger] BagView::total(a, flag) == BagView::total(b, flag),
        forall|flag: Flag| #[trigger]
            BagView::last_value(a, flag) == BagView::last_value(b, flag),
    ensures
        BagView::of(a) == BagView::of(b),
{
    let (bag_a, bag_b) = (BagView::of(a), BagView::of(b));
    assert forall|flag: Flag| #[trigger]
        bag_a.counts.dom().contains(flag) == bag_b.counts.dom().contains(flag) by {
        lemma_bag_sums_counts_and_keeps_last_value(a, flag);
        lemma_bag_sums_counts_and_keeps_last_value(b, flag);
    }
    assert forall|flag: Flag| #[trigger] bag_a.counts[flag] == bag_b.counts[flag] by {
        lemma_bag_sums_counts_and_keeps_last_value(a, flag);
        lemma_bag_sums_counts_and_keeps_last_value(b, flag);
        assert(BagView::total(a, flag) == BagView::total(b, flag));
    }
    assert forall|flag: Flag| #[trigger]
        bag_a.values.dom().contains(flag) == bag_b.values.dom().contains(flag) by {
        lemma_bag_sums_counts_and_keeps_last_value(a, flag);
        lemma_bag_sums_counts_and_keeps_last_value(b, flag);
        assert(BagView::last_value(a, flag) == BagView::last_value(b, flag));
    }
    assert forall|flag: Flag| bag_a.values.dom().contains(flag) implies #[trigger]
        bag_a.values[flag] == bag_b.values[flag] by {
        lemma_bag_sums_counts_and_keeps_last_value(a, flag);
        lemma_bag_sums_counts_and_keeps_last_value(b, flag);
        assert(BagView::last_value(a, flag) == BagView::last_value(b, flag));
    }
    assert(bag_a.counts =~= bag_b.counts);
    assert(bag_a.values =~= bag_b.values);
}

} // verus!
