//! The display mode and the screen width.
//!
//! At most one display mode is active. When several are asked for at once,
//! the long view wins over the tree, the tree over one entry per line, and
//! one entry per line over the grid; without any of them the grid is used.
//! `across` lays a grid out across the screen and means nothing in any other
//! mode: together with a winning mode other than the grid it is rejected.

use crate::bag::{BagView, FlagBag};
use crate::error::{agrees, DeductionError, DeductionErrorView};
use crate::flags::Flag;
use crate::number::{parse_decimal, spec_parse_decimal};
use vstd::prelude::*;

verus! {

/// How the entries are laid out.
#[derive(Clone, Copy, Debug, PartialEq, Eq, Structural)]
pub enum Mode {
    /// Entries side by side in a grid.
    Grid,
    /// One entry per line.
    Oneline,
    /// A table with extended metadata.
    Long,
    /// Directories expanded as a tree.
    Tree,
}

impl Mode {
    /// The flag that asks for the mode.
    pub open spec fn spec_flag(self) -> Flag {
        match self {
            Mode::Grid => Flag::Grid,
            Mode::Oneline => Flag::Oneline,
            Mode::Long => Flag::Long,
            Mode::Tree => Flag::Tree,
        }
    }

    /// The flag that asks for the mode.
    pub fn flag(self) -> (flag: Flag)
        ensures
            flag == self.spec_flag(),
    {
        match self {
            Mode::Grid => Flag::Grid,
            Mode::Oneline => Flag::Oneline,
            Mode::Long => Flag::Long,
            Mode::Tree => Flag::Tree,
        }
    }

    /// The mode that wins among those asked for.
    pub open spec fn spec_winner(bag: BagView) -> Mode {
        if bag.has(Flag::Long) {
            Mode::Long
        } else if bag.has(Flag::Tree) {
            Mode::Tree
        } else if bag.has(Flag::Oneline) {
            Mode::Oneline
        } else {
            Mode::Grid
        }
    }

    /// The display mode of a bag, or the conflict that prevents one.
    pub open spec fn spec_deduce(bag: BagView) -> Result<Mode, DeductionErrorView> {
        let winner = Mode::spec_winner(bag);
        if bag.has(Flag::Across) && winner != Mode::Grid {
            Err(DeductionErrorView::Conflict { first: Flag::Across, second: winner.spec_flag() })
        } else {
            Ok(winner)
        }
    }

    /// Resolves the display mode.
    ///
    /// Fails exactly when `across` is present and the winning mode is not
    /// the grid; the failure names `across` and the flag of the winner.
    pub fn deduce(bag: &FlagBag) -> (outcome: Result<Mode, DeductionError>)
        ensures
            agrees(outcome, Mode::spec_deduce(bag@)),
    {
        let winner = if bag.has(Flag::Long) {
            Mode::Long
        } else if bag.has(Flag::Tree) {
            Mode::Tree
        } else if bag.has(Flag::Oneline) {
            Mode::Oneline
        } else {
            Mode::Grid
        };
        if bag.has(Flag::Across) && winner != Mode::Grid {
            Err(DeductionError::Conflict { first: Flag::Across, second: winner.flag() })
        } else {
            Ok(winner)
        }
    }
}

/// How wide the output may be.
#[derive(Clone, Copy, Debug, PartialEq, Eq, Structural)]
pub enum Width {
    /// As wide as the terminal turns out to be.
    Automatic,
    /// This many columns, at least one.
    Columns(usize),
}

impl Width {
    /// The width of a bag, or the failure that prevents one.
    pub open spec fn spec_deduce(bag: BagView) -> Result<Width, DeductionErrorView> {
        match bag.value(Flag::Width) {
            None => Ok(Width::Automatic),
            Some(text) => match spec_parse_decimal(text) {
                Some(columns) => if columns >= 1 {
                    Ok(Width::Columns(columns))
                } else {
                    Ok(Width::Automatic)
                },
                None => Err(DeductionErrorView::NotANumber { flag: Flag::Width, given: text }),
            },
        }
    }

    /// Resolves the screen width.
    ///
    /// Without a value, or with the value zero, the width is automatic.
    /// Fails exactly when `width` came with a value that is not a number
    /// that fits the machine's word.
    pub fn deduce(bag: &FlagBag) -> (outcome: Result<Width, DeductionError>)
        ensures
            agrees(outcome, Width::spec_deduce(bag@)),
    {
        match bag.value(Flag::Width) {
            None => Ok(Width::Automatic),
            Some(text) => match parse_decimal(text) {
                Some(columns) => if columns >= 1 {
                    Ok(Width::Columns(columns))
                } else {
                    Ok(Width::Automatic)
                },
                None => Err(DeductionError::not_a_number(Flag::Width, text)),
            },
        }
    }
}

} // verus!
