//! Key presses and the commands they stand for.

use vstd::prelude::*;

verus! {

/// A key press, as far as the timer tells keys apart: a plain character, or
/// any other key (an arrow, a function key, a modified character).
#[derive(Clone, Copy, Debug, PartialEq, Eq, Structural)]
pub enum Key {
    /// A character typed without a modifier.
    Char(char),
    /// Any key that is not a plain character.
    Other,
}

/// What a key press asks of the timer.
#[derive(Clone, Copy, Debug, PartialEq, Eq, Structural)]
pub enum Command {
    /// `+`: lengthen the break interval by one step.
    Increase,
    /// `-`: shorten the break interval by one step.
    Decrease,
    /// `?`: show the list of commands.
    Help,
    /// `q`: leave.
    Quit,
    /// Every other key.
    Unknown,
}

/// The command that a key press stands for.
pub open spec fn command_of(key: Key) -> Command {
    match key {
        Key::Char(c) => if c == '+' {
            Command::Increase
        } else if c == '-' {
            Command::Decrease
        } else if c == '?' {
            Command::Help
        } else if c == 'q' {
            Command::Quit
        } else {
            Command::Unknown
        },
        Key::Other => Command::Unknown,
    }
}

impl Command {
    /// Reads a key press as a command.
    pub fn from_key(key: Key) -> (command: Command)
        ensures
            command == command_of(key),
    {
        match key {
            Key::Char(c) => if c == '+' {
                Command::Increase
            } else if c == '-' {
                Command::Decrease
            } else if c == '?' {
                Command::Help
            } else if c == 'q' {
                Command::Quit
            } else {
                Command::Unknown
            },
            Key::Other => Command::Unknown,
        }
    }
}

} // verus!
