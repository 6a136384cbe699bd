//! The command line of the converter, and the choices it makes when it
//! reports what it did.

use vstd::prelude::*;

verus! {

/// Convert between VSCode and Zed theme formats.
#[derive(Debug)]
pub struct Cli {
    /// Quiet output.
    pub quiet: bool,
    /// Output with theme information.
    pub verbose: bool,
    /// Show what would be converted without writing any files.
    pub dry_run: bool,
    /// The conversion or list command.
    pub command: Convert,
}

/// Available conversion commands.
#[derive(Debug)]
pub enum Convert {
    /// Convert a VSCode theme to Zed format; `vz` for short
    VscodeToZed { input: String },
    /// Convert a Zed theme to VSCode format; `zv` for short
    ZedToVscode { input: String },
    /// Find all the Zed themes with names matching the input pattern; `zed`
    /// for short
    ZedList { pattern: String },
    /// Find all the VSCode themes with names matching the input pattern;
    /// `vsc` for short
    VSCodeList { pattern: String },
}

/// How much logging a command line asks for.
#[derive(Debug, Clone, Copy, PartialEq, Eq, Structural)]
pub enum Verbosity {
    Warn,
    Info,
    Debug,
}

/// What a conversion converted, for its summary line.
#[derive(Debug, Clone, Copy, PartialEq, Eq, Structural)]
pub enum Summary {
    /// Color themes and icon themes.
    Both,
    /// Only color themes.
    ColorThemes,
    /// Only icon themes.
    IconThemes,
    /// Nothing: a warning.
    Nothing,
}

/// How a count is written before a noun.
#[derive(Debug, Clone, Copy, PartialEq, Eq, Structural)]
pub enum CountWord {
    /// "no" and the plural noun.
    No,
    /// "one" and the singular noun.
    One,
    /// The number and the plural noun.
    Many,
}

impl Cli {
    /// The log level: warnings only when quiet, debug output when verbose,
    /// else information.
    pub fn verbosity(&self) -> (r: Verbosity)
        ensures
            r == (if self.quiet {
                Verbosity::Warn
            } else if self.verbose {
                Verbosity::Debug
            } else {
                Verbosity::Info
            }),
    {
        if self.quiet {
            Verbosity::Warn
        } else if self.verbose {
            Verbosity::Debug
        } else {
            Verbosity::Info
        }
    }
}

/// The summary of a conversion that wrote `color_count` color themes and
/// `icon_count` icon themes.
pub fn conversion_summary(color_count: usize, icon_count: usize) -> (r: Summary)
    ensures
        r == (if color_count > 0 && icon_count > 0 {
            Summary::Both
        } else if color_count > 0 {
            Summary::ColorThemes
        } else if icon_count > 0 {
            Summary::IconThemes
        } else {
            Summary::Nothing
        }),
{
    if color_count > 0 && icon_count > 0 {
        Summary::Both
    } else if color_count > 0 {
        Summary::ColorThemes
    } else if icon_count > 0 {
        Summary::IconThemes
    } else {
        Summary::Nothing
    }
}

/// How `count` things are written: "no", "one", or the number.
pub fn count_word(count: usize) -> (r: CountWord)
    ensures
        r == (if count == 0 {
            CountWord::No
        } else if count == 1 {
            CountWord::One
        } else {
            CountWord::Many
        }),
{
    if count == 0 {
        CountWord::No
    } else if count == 1 {
        CountWord::One
    } else {
        CountWord::Many
    }
}

} // verus!
