//! Choosing what to do from the first command-line argument, ignoring case.

use vstd::prelude::*;

verus! {

#[derive(Clone, Copy, Debug, PartialEq, Eq, Structural)]
pub enum Command {
    /// Report the host identity.
    Info,
    /// Report live resource utilization.
    Status,
    /// Show usage.
    Help,
    /// Show the tool's version.
    Version,
    /// Not a known verb; usage is shown as for `Help`.
    Unknown,
}

/// What `str::to_lowercase` makes of a string.
pub uninterp spec fn lower_of(s: Seq<char>) -> Seq<char>;

/// Relies on str::to_lowercase: the lowercase form of each character, which depends on the
/// characters alone.
#[verifier::external_body]
fn lowercase(s: &str) -> (r: String)
    ensures
        r@ == lower_of(s@),
{
    s.to_lowercase()
}

/// The command that an already lowercased verb names.
pub open spec fn command_of(word: Seq<char>) -> Command {
    if word == "info"@ {
        Command::Info
    } else if word == "status"@ {
        Command::Status
    } else if word == "help"@ || word == "-h"@ || word == "--help"@ {
        Command::Help
    } else if word == "-v"@ || word == "--version"@ {
        Command::Version
    } else {
        Command::Unknown
    }
}

fn is_word(s: &String, word: &str) -> (r: bool)
    ensures
        r == (s@ == word@),
{
    let w = String::from_str(word);
    s.eq(&w)
}

/// The command named by a verb that is already in lowercase.
pub fn command_from_lowered(word: &String) -> (r: Command)
    ensures
        r == command_of(word@),
{
    if is_word(word, "info") {
        Command::Info
    } else if is_word(word, "status") {
        Command::Status
    } else if is_word(word, "help") || is_word(word, "-h") || is_word(word, "--help") {
        Command::Help
    } else if is_word(word, "-v") || is_word(word, "--version") {
        Command::Version
    } else {
        Command::Unknown
    }
}

/// The command named by the first argument, compared in lowercase; no argument asks for help.
pub fn parse_command(first: Option<&str>) -> (r: Command)
    ensures
        r == (match first {
            Some(a) => command_of(lower_of(a@)),
            None => Command::Help,
        }),
{
    match first {
        Some(a) => {
            let lowered = lowercase(a);
            command_from_lowered(&lowered)
        },
        None => Command::Help,
    }
}

} // verus!
