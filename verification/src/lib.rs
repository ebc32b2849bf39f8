//! Option resolution for a directory-listing command-line tool.
//!
//! A tokenizer hands over the flags of one invocation. They are gathered
//! into a [`bag::FlagBag`], in which every spelling of a flag counts towards
//! its canonical identifier. From the bag, [`options::resolve`] produces
//! either the request for the help text or one value for every category of
//! the [`settings::Settings`], or else every reason why the flags cannot be
//! resolved.
//!
//! Nothing here reads the file system, the terminal or the environment: the
//! optional subsystems of the build are passed in as a
//! [`features::Features`] value.

pub mod bag;
pub mod columns;
pub mod display;
pub mod error;
pub mod features;
pub mod filter;
pub mod flags;
pub mod git;
pub mod help;
pub mod laws;
pub mod number;
pub mod options;
pub mod parser;
pub mod settings;
pub mod sort;
pub mod spelling;
pub mod text;
pub mod theme;
