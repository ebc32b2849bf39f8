//! The resolved settings.
//!
//! Every category of the settings holds exactly one value once the flags
//! are resolved. Categories are resolved independently of each other, and
//! every failure is reported, not only the first.

use crate::bag::{BagView, FlagBag};
use crate::columns::{Columns, TimeField};
use crate::display::{Mode, Width};
use crate::error::{agrees, error_views, DeductionError, DeductionErrorView};
use crate::features::Features;
use crate::filter::{Filter, FilterView};
use crate::git::GitPolicy;
use crate::sort::{SortDirection, SortField};
use crate::theme::When;
use vstd::prelude::*;

verus! {

/// One value for every category of the configuration.
#[derive(Debug, PartialEq, Eq)]
pub struct Settings {
    pub mode: Mode,
    pub sort_field: SortField,
    pub sort_direction: SortDirection,
    pub filter: Filter,
    pub columns: Columns,
    pub time_field: TimeField,
    pub color: When,
    pub icons: When,
    pub git: GitPolicy,
    pub width: Width,
}

/// The mathematical value of [`Settings`].
pub struct SettingsView {
    pub mode: Mode,
    pub sort_field: SortField,
    pub sort_direction: SortDirection,
    pub filter: FilterView,
    pub columns: Columns,
    pub time_field: TimeField,
    pub color: When,
    pub icons: When,
    pub git: GitPolicy,
    pub width: Width,
}

impl View for Settings {
    type V = SettingsView;

    open spec fn view(&self) -> SettingsView {
        SettingsView {
            mode: self.mode,
            sort_field: self.sort_field,
            sort_direction: self.sort_direction,
            filter: self.filter@,
            columns: self.columns,
            time_field: self.time_field,
            color: self.color,
            icons: self.icons,
            git: self.git,
            width: self.width,
        }
    }
}

/// The failure of an outcome as a sequence: empty on success.
pub open spec fn failure<T>(outcome: Result<T, DeductionErrorView>) -> Seq<DeductionErrorView> {
    match outcome {
        Ok(_) => Seq::empty(),
        Err(error) => seq![error],
    }
}

impl Settings {
    /// Every failure among the categories of a bag, in the order display
    /// mode, sort field, timestamp field, colour, icons, width.
    pub open spec fn spec_failures(bag: BagView) -> Seq<DeductionErrorView> {
        failure(Mode::spec_deduce(bag)) + failure(SortField::spec_deduce(bag)) + failure(
            TimeField::spec_deduce(bag),
        ) + failure(When::spec_color(bag)) + failure(When::spec_icons(bag)) + failure(
            Width::spec_deduce(bag),
        )
    }

    /// The settings of a bag in a build, or every failure that prevents
    /// them.
    pub open spec fn spec_deduce(bag: BagView, features: Features) -> Result<
        SettingsView,
        Seq<DeductionErrorView>,
    > {
        if Settings::spec_failures(bag).len() == 0 {
            Ok(
                SettingsView {
                    mode: Mode::spec_deduce(bag)->Ok_0,
                    sort_field: SortField::spec_deduce(bag)->Ok_0,
                    sort_direction: SortDirection::spec_deduce(bag),
                    filter: Filter::spec_deduce(bag, features),
                    columns: Columns::spec_deduce(bag, features),
                    time_field: TimeField::spec_deduce(bag)->Ok_0,
                    color: When::spec_color(bag)->Ok_0,
                    icons: When::spec_icons(bag)->Ok_0,
                    git: GitPolicy::spec_deduce(bag, features),
                    width: Width::spec_deduce(bag)->Ok_0,
                },
            )
        } else {
            Err(Settings::spec_failures(bag))
        }
    }

    /// Adds the failure of an outcome, if it has one, to the failures found
    /// so far.
    fn note<T>(
        outcome: Result<T, DeductionError>,
        expected: Ghost<Result<T, DeductionErrorView>>,
        errors: &mut Vec<DeductionError>,
    )
        requires
            agrees(outcome, expected@),
        ensures
            error_views(final(errors)@) == error_views(old(errors)@) + failure(expected@),
    {
        match outcome {
            Ok(_) => {
                assert(error_views(errors@) + failure(expected@) =~= error_views(errors@));
            },
            Err(error) => {
                let ghost before = errors@;
                errors.push(error);
                assert(error_views(errors@) =~= error_views(before) + failure(expected@));
            },
        }
    }

    /// Resolves every category of the settings.
    ///
    /// Succeeds exactly when no category fails. Otherwise the failures of
    /// all categories are returned together, in a fixed order.
    pub fn deduce(bag: &FlagBag, features: Features) -> (outcome: Result<
        Settings,
        Vec<DeductionError>,
    >)
        ensures
            match outcome {
                Ok(settings) => Settings::spec_deduce(bag@, features) == Ok::<
                    SettingsView,
                    Seq<DeductionErrorView>,
                >(settings@),
                Err(errors) => Settings::spec_deduce(bag@, features) == Err::<
                    SettingsView,
                    Seq<DeductionErrorView>,
                >(error_views(errors@)),
            },
    {
        let mode = Mode::deduce(bag);
        let sort_field = SortField::deduce(bag);
        let time_field = TimeField::deduce(bag);
        let color = When::deduce_color(bag);
        let icons = When::deduce_icons(bag);
        let width = Width::deduce(bag);
        match (mode, sort_field, time_field, color, icons, width) {
            (Ok(mode), Ok(sort_field), Ok(time_field), Ok(color), Ok(icons), Ok(width)) => {
                Ok(
                    Settings {
                        mode,
                        sort_field,
                        sort_direction: SortDirection::deduce(bag),
                        filter: Filter::deduce(bag, features),
                        columns: Columns::deduce(bag, features),
                        time_field,
                        color,
                        icons,
                        git: GitPolicy::deduce(bag, features),
                        width,
                    },
                )
            },
            (mode, sort_field, time_field, color, icons, width) => {
                let mut errors: Vec<DeductionError> = Vec::new();
                assert(error_views(errors@) =~= Seq::<DeductionErrorView>::empty());
                Settings::note(mode, Ghost(Mode::spec_deduce(bag@)), &mut errors);
                Settings::note(sort_field, Ghost(SortField::spec_deduce(bag@)), &mut errors);
                Settings::note(time_field, Ghost(TimeField::spec_deduce(bag@)), &mut errors);
                Settings::note(color, Ghost(When::spec_color(bag@)), &mut errors);
                Settings::note(icons, Ghost(When::spec_icons(bag@)), &mut errors);
                Settings::note(width, Ghost(Width::spec_deduce(bag@)), &mut errors);
                assert(error_views(errors@) =~= Settings::spec_failures(bag@));
                Err(errors)
            },
        }
    }
}

} // verus!
