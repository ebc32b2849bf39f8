//! The bag of flags that one invocation supplied.
//!
//! A tokenizer hands over flag occurrences: how the flag was spelled, how
//! often it was repeated, and the string value that came with it, if any.
//! The bag collapses the spellings of one flag into its canonical identifier,
//! sums the repetitions and keeps the value supplied last. It is built once
//! and only read afterwards.

use crate::flags::{Flag, FLAG_COUNT};
use crate::laws::lemma_bag_sums_counts_and_keeps_last_value;
use crate::text::optional_text;
use vstd::prelude::*;

verus! {

/// One way of spelling a flag on the command line, without leading dashes.
#[derive(Debug, PartialEq, Eq)]
pub enum Token {
    /// A long spelling, such as `colour`.
    Long(String),
    /// A one-character short form, such as `a`.
    Short(char),
}

/// The mathematical value of a [`Token`].
pub enum TokenView {
    Long(Seq<char>),
    Short(char),
}

impl View for Token {
    type V = TokenView;

    open spec fn view(&self) -> TokenView {
        match self {
            Token::Long(name) => TokenView::Long(name@),
            Token::Short(short) => TokenView::Short(*short),
        }
    }
}

impl TokenView {
    /// The canonical identifier that the spelling resolves to, if it is the
    /// spelling of any flag.
    pub open spec fn flag(self) -> Option<Flag> {
        match self {
            TokenView::Long(name) => Flag::spec_from_long(name),
            TokenView::Short(short) => Flag::spec_from_short(short),
        }
    }
}

impl Token {
    /// The canonical identifier that this spelling resolves to.
    pub fn flag(&self) -> (flag: Option<Flag>)
        ensures
            flag == self@.flag(),
    {
        match self {
            Token::Long(name) => Flag::from_long(name.as_str()),
            Token::Short(short) => Flag::from_short(*short),
        }
    }
}

/// One tokenized flag occurrence.
#[derive(Debug, PartialEq, Eq)]
pub struct Occurrence {
    /// How the flag was spelled.
    pub token: Token,
    /// How many times this spelling was repeated.
    pub count: u8,
    /// The string value that came with the flag, if any.
    pub value: Option<String>,
}

/// The mathematical value of an [`Occurrence`].
pub struct OccurrenceView {
    pub token: TokenView,
    pub count: nat,
    pub value: Option<Seq<char>>,
}

impl View for Occurrence {
    type V = OccurrenceView;

    open spec fn view(&self) -> OccurrenceView {
        OccurrenceView {
            token: self.token@,
            count: self.count as nat,
            value: optional_text(self.value),
        }
    }
}

/// The mathematical values of a sequence of occurrences, in order.
pub open spec fn occurrence_views(occurrences: Seq<Occurrence>) -> Seq<OccurrenceView> {
    occurrences.map_values(|o: Occurrence| o@)
}

/// The mathematical value of a [`FlagBag`].
pub struct BagView {
    /// The occurrence count of every flag.
    pub counts: Map<Flag, nat>,
    /// The value supplied last, for the flags that came with one.
    pub values: Map<Flag, Seq<char>>,
}

impl BagView {
    /// The bag of an invocation without flags.
    pub open spec fn empty() -> BagView {
        BagView { counts: Map::new(|f: Flag| true, |f: Flag| 0nat), values: Map::empty() }
    }

    /// How often the flag was supplied, over all its spellings. A flag that
    /// was never supplied has count 0.
    pub open spec fn count(self, flag: Flag) -> nat {
        if self.counts.dom().contains(flag) {
            self.counts[flag]
        } else {
            0
        }
    }

    /// Whether the flag was supplied at least once.
    pub open spec fn has(self, flag: Flag) -> bool {
        self.count(flag) > 0
    }

    /// The value that was supplied last with the flag, if any was.
    pub open spec fn value(self, flag: Flag) -> Option<Seq<char>> {
        if self.values.dom().contains(flag) {
            Some(self.values[flag])
        } else {
            None
        }
    }

    /// The bag after `count` more occurrences of `flag`, the last of them
    /// with `value` if there is one. A value that comes with a flag that
    /// takes none is dropped.
    pub open spec fn add(self, flag: Flag, count: nat, value: Option<Seq<char>>) -> BagView {
        BagView {
            counts: self.counts.insert(flag, self.count(flag) + count),
            values: match value {
                Some(text) => if flag.spec_takes_value() {
                    self.values.insert(flag, text)
                } else {
                    self.values
                },
                None => self.values,
            },
        }
    }

    /// The bag after one more occurrence. An occurrence whose spelling
    /// belongs to no flag leaves the bag as it is.
    pub open spec fn record(self, occurrence: OccurrenceView) -> BagView {
        match occurrence.token.flag() {
            Some(flag) => self.add(flag, occurrence.count, occurrence.value),
            None => self,
        }
    }

    /// How often a flag occurs in a sequence of occurrences: the sum of the
    /// counts of the occurrences whose spelling resolves to the flag.
    pub open spec fn total(occurrences: Seq<OccurrenceView>, flag: Flag) -> nat
        decreases occurrences.len(),
    {
        if occurrences.len() == 0 {
            0
        } else {
            let last = occurrences.last();
            BagView::total(occurrences.drop_last(), flag) + if last.token.flag() == Some(flag) {
                last.count
            } else {
                0
            }
        }
    }

    /// The value that comes last in a sequence of occurrences among those
    /// supplied with a flag; none for a flag that takes no value.
    pub open spec fn last_value(occurrences: Seq<OccurrenceView>, flag: Flag) -> Option<
        Seq<char>,
    >
        decreases occurrences.len(),
    {
        if occurrences.len() == 0 {
            None
        } else {
            let last = occurrences.last();
            if last.token.flag() == Some(flag) && last.value is Some && flag.spec_takes_value() {
                last.value
            } else {
                BagView::last_value(occurrences.drop_last(), flag)
            }
        }
    }

    /// The bag of a sequence of occurrences, taken in order.
    pub open spec fn of(occurrences: Seq<OccurrenceView>) -> BagView
        decreases occurrences.len(),
    {
        if occurrences.len() == 0 {
            BagView::empty()
        } else {
            BagView::of(occurrences.drop_last()).record(occurrences.last())
        }
    }
}

/// The flags of one invocation, by canonical identifier.
///
/// Counts are exact: a sum of as many 8-bit repeat counts as a vector can
/// hold fits 128 bits.
#[derive(Debug, PartialEq, Eq)]
pub struct FlagBag {
    counts: Vec<u128>,
    values: Vec<Option<String>>,
}

impl View for FlagBag {
    type V = BagView;

    closed spec fn view(&self) -> BagView {
        BagView {
            counts: Map::new(
                |f: Flag| true,
                |f: Flag| self.counts@[f.spec_index() as int] as nat,
            ),
            values: Map::new(
                |f: Flag| self.values@[f.spec_index() as int] is Some,
                |f: Flag| self.values@[f.spec_index() as int]->0@,
            ),
        }
    }
}

impl FlagBag {
    #[verifier::type_invariant]
    spec fn well_formed(self) -> bool {
        self.counts@.len() == FLAG_COUNT && self.values@.len() == FLAG_COUNT
    }

    /// Every count in the table is at most `bound`.
    spec fn counts_within(self, bound: nat) -> bool {
        forall|i: int| 0 <= i < self.counts@.len() ==> #[trigger] self.counts@[i] <= bound
    }

    /// The bag of an invocation without flags.
    fn empty() -> (bag: FlagBag)
        ensures
            bag@ == BagView::empty(),
            bag.counts_within(0),
    {
        let mut counts: Vec<u128> = Vec::new();
        let mut values: Vec<Option<String>> = Vec::new();
        let mut i: usize = 0;
        while i < FLAG_COUNT
            invariant
                i <= FLAG_COUNT,
                counts@.len() == i,
                values@.len() == i,
                forall|k: int| 0 <= k < i ==> counts@[k] == 0,
                forall|k: int| 0 <= k < i ==> values@[k] is None,
            decreases FLAG_COUNT - i,
        {
            counts.push(0);
            values.push(None);
            i = i + 1;
        }
        let bag = FlagBag { counts, values };
        proof {
            assert(bag@.counts =~= BagView::empty().counts);
            assert(bag@.values =~= BagView::empty().values);
        }
        bag
    }

    /// The bag after `count` more occurrences of a flag, the last of them
    /// with `value` if there is one.
    fn add(self, flag: Flag, count: u8, value: &Option<String>) -> (bag: FlagBag)
        requires
            self.counts@[flag.spec_index() as int] + count <= u128::MAX,
        ensures
            bag@ == self@.add(flag, count as nat, optional_text(*value)),
            bag.counts@ == self.counts@.update(
                flag.spec_index() as int,
                (self.counts@[flag.spec_index() as int] + count) as u128,
            ),
    {
        proof {
            use_type_invariant(&self);
        }
        let ghost expected = self@.add(flag, count as nat, optional_text(*value));
        let i = flag.index();
        let mut counts = self.counts;
        let mut values = self.values;
        let sum: u128 = counts[i] + (count as u128);
        counts.set(i, sum);
        match value {
            Some(text) => {
                if flag.takes_value() {
                    values.set(i, Some(text.clone()));
                }
            },
            None => {},
        }
        let bag = FlagBag { counts, values };
        proof {
            assert forall|f: Flag| f.spec_index() == flag.spec_index() implies f == flag by {}
            assert(bag@.counts =~= expected.counts);
            assert(bag@.values =~= expected.values);
        }
        bag
    }

    /// Builds the bag of a sequence of tokenized occurrences.
    ///
    /// Spellings of one flag are collapsed into its canonical identifier and
    /// their counts are summed. Of the values supplied with a flag the last
    /// one is kept, if the flag takes a value. A spelling that belongs to no
    /// flag adds nothing.
    pub fn from_occurrences(occurrences: &Vec<Occurrence>) -> (bag: FlagBag)
        ensures
            bag@ == BagView::of(occurrence_views(occurrences@)),
            forall|flag: Flag| #[trigger]
                bag@.count(flag) == BagView::total(occurrence_views(occurrences@), flag),
            forall|flag: Flag| #[trigger]
                bag@.value(flag) == BagView::last_value(occurrence_views(occurrences@), flag),
    {
        let mut bag = FlagBag::empty();
        let ghost views = occurrence_views(occurrences@);
        let n = occurrences.len();
        let mut i: usize = 0;
        proof {
            assert(views.take(0) =~= Seq::<OccurrenceView>::empty());
        }
        while i < n
            invariant
                n == occurrences@.len(),
                views == occurrence_views(occurrences@),
                i <= n,
                bag@ == BagView::of(views.take(i as int)),
                bag.counts_within(255 * (i as nat)),
            decreases n - i,
        {
            let occurrence = &occurrences[i];
            proof {
                use_type_invariant(&bag);
                assert(views.take(i + 1).drop_last() =~= views.take(i as int));
                assert(views.take(i + 1).last() == occurrence@);
            }
            match occurrence.token.flag() {
                Some(flag) => {
                    assert(bag.counts@[flag.spec_index() as int] <= 255 * (i as nat));
                    bag = bag.add(flag, occurrence.count, &occurrence.value);
                },
                None => {},
            }
            i = i + 1;
        }
        proof {
            assert(views.take(n as int) =~= views);
            assert forall|flag: Flag|
                BagView::of(views).count(flag) == BagView::total(views, flag) && BagView::of(
                    views,
                ).value(flag) == BagView::last_value(views, flag) by {
                lemma_bag_sums_counts_and_keeps_last_value(views, flag);
            }
        }
        bag
    }

    /// How often the flag was supplied, over all its spellings.
    pub fn count(&self, flag: Flag) -> (count: u128)
        ensures
            count == self@.count(flag),
    {
        proof {
            use_type_invariant(self);
        }
        self.counts[flag.index()]
    }

    /// Whether the flag was supplied at least once.
    pub fn has(&self, flag: Flag) -> (present: bool)
        ensures
            present == self@.has(flag),
    {
        self.count(flag) > 0
    }

    /// The value that was supplied last with the flag, if any was.
    pub fn value(&self, flag: Flag) -> (value: Option<&str>)
        ensures
            match value {
                Some(text) => self@.value(flag) == Some(text@),
                None => self@.value(flag) is None,
            },
    {
        proof {
            use_type_invariant(self);
        }
        match &self.values[flag.index()] {
            Some(text) => Some(text.as_str()),
            None => None,
        }
    }
}

} // verus!
