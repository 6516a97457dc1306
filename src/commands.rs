//! The chat commands; any other text is a food description.
use crate::extract::same_text;
use vstd::prelude::*;

verus! {

#[derive(Clone, Copy, Debug, PartialEq, Eq, Structural)]
pub enum Command {
    Start,
    Help,
    Stats,
    Reset,
    Week,
    Subscribe,
    Status,
    Cancel,
    /// Not a command: the text describes food.
    Food,
}

pub open spec fn command_of(text: Seq<char>) -> Command {
    if text == "/start"@ {
        Command::Start
    } else if text == "/help"@ {
        Command::Help
    } else if text == "/stats"@ {
        Command::Stats
    } else if text == "/reset"@ {
        Command::Reset
    } else if text == "/week"@ {
        Command::Week
    } else if text == "/subscribe"@ {
        Command::Subscribe
    } else if text == "/status"@ {
        Command::Status
    } else if text == "/cancel"@ {
        Command::Cancel
    } else {
        Command::Food
    }
}

/// The command a message text gives; only an exact command word counts.
pub fn parse_command(text: &str) -> (r: Command)
    ensures
        r == command_of(text@),
{
    if same_text(text, "/start") {
        Command::Start
    } else if same_text(text, "/help") {
        Command::Help
    } else if same_text(text, "/stats") {
        Command::Stats
    } else if same_text(text, "/reset") {
        Command::Reset
    } else if same_text(text, "/week") {
        Command::Week
    } else if same_text(text, "/subscribe") {
        Command::Subscribe
    } else if same_text(text, "/status") {
        Command::Status
    } else if same_text(text, "/cancel") {
        Command::Cancel
    } else {
        Command::Food
    }
}

} // verus!
