//! The entry point: from a bag of flags to help or settings.
//!
//! A request for help is answered before anything else is looked at, so
//! that no other flag, however malformed, stands in its way.

use crate::bag::{BagView, FlagBag};
use crate::error::{error_views, DeductionError, DeductionErrorView};
use crate::features::Features;
use crate::flags::Flag;
use crate::help::HelpString;
use crate::settings::{Settings, SettingsView};
use vstd::prelude::*;

verus! {

/// What became of an invocation's flags.
#[derive(Debug, PartialEq, Eq)]
pub enum OptionsResult {
    /// Help was asked for.
    Help(HelpString),
    /// The flags were resolved into settings.
    Resolved(Settings),
    /// The flags could not be resolved, for every one of these reasons.
    InvalidOptions(Vec<DeductionError>),
}

/// The mathematical value of an [`OptionsResult`].
pub enum OptionsResultView {
    Help,
    Resolved(SettingsView),
    InvalidOptions(Seq<DeductionErrorView>),
}

impl View for OptionsResult {
    type V = OptionsResultView;

    open spec fn view(&self) -> OptionsResultView {
        match self {
            OptionsResult::Help(_) => OptionsResultView::Help,
            OptionsResult::Resolved(settings) => OptionsResultView::Resolved(settings@),
            OptionsResult::InvalidOptions(errors) => OptionsResultView::InvalidOptions(
                error_views(errors@),
            ),
        }
    }
}

/// What becomes of a bag of flags in a build.
pub open spec fn spec_resolve(bag: BagView, features: Features) -> OptionsResultView {
    if bag.has(Flag::Help) {
        OptionsResultView::Help
    } else {
        match Settings::spec_deduce(bag, features) {
            Ok(settings) => OptionsResultView::Resolved(settings),
            Err(errors) => OptionsResultView::InvalidOptions(errors),
        }
    }
}

/// Resolves a bag of flags.
///
/// With the help flag present the result is the request for help, whatever
/// else the bag holds. Otherwise it is the settings, or every reason why
/// there are none.
pub fn resolve(bag: &FlagBag, features: Features) -> (result: OptionsResult)
    ensures
        result@ == spec_resolve(bag@, features),
{
    match HelpString::deduce(bag) {
        Some(help) => OptionsResult::Help(help),
        None => match Settings::deduce(bag, features) {
            Ok(settings) => OptionsResult::Resolved(settings),
            Err(errors) => OptionsResult::InvalidOptions(errors),
        },
    }
}

} // verus!
