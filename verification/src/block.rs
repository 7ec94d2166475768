//! A single character position of the grid: its glyph, its colour, and
//! whether it is the bright "leading white" glyph of a stream.

use vstd::prelude::*;

verus! {

/// One colour of the terminal's palette, numbered as curses numbers them.
#[derive(Clone, Copy, Debug, PartialEq, Eq, Structural)]
pub enum Color {
    Black,
    Red,
    Green,
    Yellow,
    Blue,
    Magenta,
    Cyan,
    White,
}

impl Color {
    /// The curses colour number of this colour.
    pub open spec fn spec_code(self) -> i16 {
        match self {
            Color::Black => 0,
            Color::Red => 1,
            Color::Green => 2,
            Color::Yellow => 3,
            Color::Blue => 4,
            Color::Magenta => 5,
            Color::Cyan => 6,
            Color::White => 7,
        }
    }

    /// Return the curses colour number of this colour.
    pub fn code(&self) -> (c: i16)
        ensures
            c == self.spec_code(),
    {
        match self {
            Color::Black => 0,
            Color::Red => 1,
            Color::Green => 2,
            Color::Yellow => 3,
            Color::Blue => 4,
            Color::Magenta => 5,
            Color::Cyan => 6,
            Color::White => 7,
        }
    }
}

/// The colour that position `r % 6` of the stream palette holds.
pub open spec fn spec_palette_color(r: u64) -> Color {
    if r % 6 == 0 {
        Color::Green
    } else if r % 6 == 1 {
        Color::Blue
    } else if r % 6 == 2 {
        Color::White
    } else if r % 6 == 3 {
        Color::Yellow
    } else if r % 6 == 4 {
        Color::Cyan
    } else {
        Color::Magenta
    }
}

/// Pick a colour from the six-colour stream palette, keyed by a raw draw.
pub fn palette_color(r: u64) -> (c: Color)
    ensures
        c == spec_palette_color(r),
{
    let k = r % 6;
    if k == 0 {
        Color::Green
    } else if k == 1 {
        Color::Blue
    } else if k == 2 {
        Color::White
    } else if k == 3 {
        Color::Yellow
    } else if k == 4 {
        Color::Cyan
    } else {
        Color::Magenta
    }
}

/// One terminal character slot: a glyph (a space means the slot is empty),
/// the leading-white flag, and the stream colour the slot carries.
#[derive(Clone, Copy, Debug, PartialEq, Eq, Structural)]
pub struct Block {
    /// The glyph shown at this slot; `' '` means the slot is empty.
    pub val: char,
    /// Whether this slot renders as the bright white leading glyph.
    pub white: bool,
    /// The stream colour stored at this slot.
    pub color: Color,
}

impl Block {
    /// Whether this slot is empty.
    pub open spec fn spec_is_space(self) -> bool {
        self.val == ' '
    }

    /// Return whether this slot is empty.
    pub fn is_space(&self) -> (r: bool)
        ensures
            r == self.spec_is_space(),
    {
        self.val == ' '
    }

    /// The value an empty slot holds: a space, not white, coloured red.
    pub open spec fn spec_default() -> Block {
        Block { val: ' ', white: false, color: Color::Red }
    }
}

impl Default for Block {
    /// Return an empty slot.
    fn default() -> (b: Block)
        ensures
            b == Block::spec_default(),
    {
        Block { val: ' ', white: false, color: Color::Red }
    }
}

/// Whether `c` lies in the printable band that glyph draws come from.
pub open spec fn printable(c: char) -> bool {
    '!' <= c <= '}'
}

/// The glyph that the raw draw `r` yields: a character in the printable band.
pub open spec fn spec_glyph(r: u64) -> char {
    (((r as u8) % 93) + 33) as char
}

/// Turn a raw draw into a glyph from the printable band (never a space).
pub fn glyph_from(r: u64) -> (c: char)
    ensures
        c == spec_glyph(r),
        printable(c),
        c != ' ',
{
    let b: u8 = (r as u8) % 93 + 33;
    b as char
}

} // verus!
