//! Colour and icon policy.
//!
//! Both policies are one of `always`, `auto` and `never`, and both default
//! to `auto` when the flag is absent. `icons` without a value asks for icons
//! always. `no-icons` forces icons off whatever came with `icons`, and
//! however often.

use crate::bag::{BagView, FlagBag};
use crate::error::{agrees, DeductionError, DeductionErrorView};
use crate::flags::Flag;
use crate::text::str_eq;
use vstd::prelude::*;

verus! {

/// When a decoration is used.
#[derive(Clone, Copy, Debug, PartialEq, Eq, Structural)]
pub enum When {
    /// Whatever the output is connected to.
    Always,
    /// Only when the output is a terminal.
    Auto,
    /// Not at all.
    Never,
}

impl When {
    /// The policy that a word names, if it names one.
    pub open spec fn spec_parse(word: Seq<char>) -> Option<When> {
        if word == "always"@ {
            Some(When::Always)
        } else if word == "auto"@ {
            Some(When::Auto)
        } else if word == "never"@ {
            Some(When::Never)
        } else {
            None
        }
    }

    /// The policy that a word names, if it names one.
    pub fn parse(word: &str) -> (policy: Option<When>)
        ensures
            policy == When::spec_parse(word@),
    {
        if str_eq(word, "always") {
            Some(When::Always)
        } else if str_eq(word, "auto") {
            Some(When::Auto)
        } else if str_eq(word, "never") {
            Some(When::Never)
        } else {
            None
        }
    }

    /// The policy that the value of `flag` asks for: `auto` without a value,
    /// a failure naming the flag for a value that is no policy.
    pub open spec fn spec_from_value(bag: BagView, flag: Flag) -> Result<
        When,
        DeductionErrorView,
    > {
        match bag.value(flag) {
            None => Ok(When::Auto),
            Some(word) => match When::spec_parse(word) {
                Some(policy) => Ok(policy),
                None => Err(DeductionErrorView::BadArgument { flag, given: word }),
            },
        }
    }

    /// Reads the policy that the value of `flag` asks for.
    fn from_value(bag: &FlagBag, flag: Flag) -> (outcome: Result<When, DeductionError>)
        ensures
            agrees(outcome, When::spec_from_value(bag@, flag)),
    {
        match bag.value(flag) {
            None => Ok(When::Auto),
            Some(word) => match When::parse(word) {
                Some(policy) => Ok(policy),
                None => Err(DeductionError::bad_argument(flag, word)),
            },
        }
    }

    /// The colour policy of a bag.
    pub open spec fn spec_color(bag: BagView) -> Result<When, DeductionErrorView> {
        When::spec_from_value(bag, Flag::Color)
    }

    /// Resolves the colour policy.
    ///
    /// Fails exactly when `color` came with a value other than `always`,
    /// `auto` and `never`.
    pub fn deduce_color(bag: &FlagBag) -> (outcome: Result<When, DeductionError>)
        ensures
            agrees(outcome, When::spec_color(bag@)),
    {
        When::from_value(bag, Flag::Color)
    }

    /// The icon policy of a bag.
    pub open spec fn spec_icons(bag: BagView) -> Result<When, DeductionErrorView> {
        if bag.has(Flag::NoIcons) {
            Ok(When::Never)
        } else if bag.value(Flag::Icons) is None && bag.has(Flag::Icons) {
            Ok(When::Always)
        } else {
            When::spec_from_value(bag, Flag::Icons)
        }
    }

    /// Resolves the icon policy.
    ///
    /// With `no-icons` present the policy is `never` and nothing fails.
    /// Otherwise `icons` without a value means `always`, and resolution
    /// fails exactly when `icons` came with a value other than `always`,
    /// `auto` and `never`.
    pub fn deduce_icons(bag: &FlagBag) -> (outcome: Result<When, DeductionError>)
        ensures
            agrees(outcome, When::spec_icons(bag@)),
    {
        if bag.has(Flag::NoIcons) {
            Ok(When::Never)
        } else if bag.value(Flag::Icons).is_none() && bag.has(Flag::Icons) {
            Ok(When::Always)
        } else {
            When::from_value(bag, Flag::Icons)
        }
    }
}

} // verus!
