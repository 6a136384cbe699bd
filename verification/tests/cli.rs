//! The command line's choices.

use thematic::cli::{conversion_summary, count_word, Cli, Convert, CountWord, Summary, Verbosity};

fn cli(quiet: bool, verbose: bool) -> Cli {
    Cli { quiet, verbose, dry_run: false, command: Convert::ZedList { pattern: "rose".to_string() } }
}

#[test]
fn verify_cli() {
    let commands = vec![
        Convert::VscodeToZed { input: "rose-pine-moon".to_string() },
        Convert::ZedToVscode { input: "catppuccin".to_string() },
        Convert::ZedList { pattern: "rose".to_string() },
        Convert::VSCodeList { pattern: "blu".to_string() },
    ];
    for command in commands {
        let cli = Cli { quiet: false, verbose: false, dry_run: true, command };
        assert_eq!(cli.verbosity(), Verbosity::Info);
        assert!(cli.dry_run);
    }
}

#[test]
fn quiet_wins_over_verbose() {
    assert_eq!(cli(true, true).verbosity(), Verbosity::Warn);
    assert_eq!(cli(true, false).verbosity(), Verbosity::Warn);
    assert_eq!(cli(false, true).verbosity(), Verbosity::Debug);
    assert_eq!(cli(false, false).verbosity(), Verbosity::Info);
}

#[test]
fn summaries() {
    assert_eq!(conversion_summary(3, 1), Summary::Both);
    assert_eq!(conversion_summary(3, 0), Summary::ColorThemes);
    assert_eq!(conversion_summary(0, 2), Summary::IconThemes);
    assert_eq!(conversion_summary(0, 0), Summary::Nothing);
}

#[test]
fn count_words() {
    assert_eq!(count_word(0), CountWord::No);
    assert_eq!(count_word(1), CountWord::One);
    assert_eq!(count_word(7), CountWord::Many);
}
