//! The input that a session is told of.

use vstd::prelude::*;

verus! {

/// A key, as far as the game tells keys apart.
#[derive(Clone, Copy, Debug, PartialEq, Eq)]
pub enum Key {
    /// The key of a character.
    Char(char),
    /// Any other key.
    Other,
}

/// Something that came in from the terminal.
#[derive(Clone, Copy, Debug, PartialEq, Eq)]
pub enum InputEvent {
    /// A key was pressed.
    Key(Key),
    /// Anything else: the mouse, a change of the terminal's size.
    Other,
}

/// The character whose key asks to leave the game.
pub const QUIT_KEY: char = 'q';

impl InputEvent {
    /// Whether the event asks to leave the game: it is a press of the quit key.
    pub open spec fn asks_to_quit(self) -> bool {
        self == InputEvent::Key(Key::Char(QUIT_KEY))
    }

    /// Whether the event asks to leave the game.
    pub fn is_quit(&self) -> (quit: bool)
        ensures
            quit == self.asks_to_quit(),
    {
        match self {
            InputEvent::Key(Key::Char(pressed)) => *pressed == QUIT_KEY,
            _ => false,
        }
    }
}

} // verus!
