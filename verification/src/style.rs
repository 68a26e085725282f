//! The colours of the playfield, and the colours of the terminal.

use vstd::prelude::*;

verus! {

/// A colour that the game paints a cell's background with.
#[derive(Clone, Copy, Debug, PartialEq, Eq)]
pub enum Color {
    /// The terminal's own background.
    Reset,
    Red,
    Yellow,
    Green,
    Blue,
}

/// A colour that a cell of the terminal can have: every colour that `tui`
/// knows, under its name there.
#[derive(Clone, Copy, Debug, PartialEq, Eq)]
pub enum CellColor {
    /// The terminal's own colour.
    Reset,
    Black,
    Red,
    Green,
    Yellow,
    Blue,
    Magenta,
    Cyan,
    Gray,
    DarkGray,
    LightRed,
    LightGreen,
    LightYellow,
    LightBlue,
    LightMagenta,
    LightCyan,
    White,
    /// A colour by its red, green and blue part.
    Rgb(u8, u8, u8),
    /// A colour by its number in the terminal's table.
    Indexed(u8),
}

impl Color {
    /// The colour as a cell holds it.
    pub open spec fn in_cell(self) -> CellColor {
        match self {
            Color::Reset => CellColor::Reset,
            Color::Red => CellColor::Red,
            Color::Yellow => CellColor::Yellow,
            Color::Green => CellColor::Green,
            Color::Blue => CellColor::Blue,
        }
    }
}

} // verus!
