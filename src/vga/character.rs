//! A character cell of the text-mode display.
use vstd::prelude::*;

verus! {

/// The sixteen colours of the text mode.
#[derive(Clone, Copy, PartialEq, Eq, Debug, Structural)]
pub enum Color {
    Black,
    Blue,
    Green,
    Cyan,
    Red,
    Magenta,
    Brown,
    Gray,
    DarkGray,
    BrightBlue,
    BrightGreen,
    BrightCyan,
    BrightRed,
    BrightMagenta,
    Yellow,
    White,
}

impl Color {
    /// The 4-bit code of the colour.
    pub open spec fn spec_code(self) -> u8 {
        match self {
            Color::Black => 0x0,
            Color::Blue => 0x1,
            Color::Green => 0x2,
            Color::Cyan => 0x3,
            Color::Red => 0x4,
            Color::Magenta => 0x5,
            Color::Brown => 0x6,
            Color::Gray => 0x7,
            Color::DarkGray => 0x8,
            Color::BrightBlue => 0x9,
            Color::BrightGreen => 0xA,
            Color::BrightCyan => 0xB,
            Color::BrightRed => 0xC,
            Color::BrightMagenta => 0xD,
            Color::Yellow => 0xE,
            Color::White => 0xF,
        }
    }

    /// The 4-bit code of the colour.
    pub fn code(self) -> (r: u8)
        ensures
            r == self.spec_code(),
            r < 16,
    {
        match self {
            Color::Black => 0x0,
            Color::Blue => 0x1,
            Color::Green => 0x2,
            Color::Cyan => 0x3,
            Color::Red => 0x4,
            Color::Magenta => 0x5,
            Color::Brown => 0x6,
            Color::Gray => 0x7,
            Color::DarkGray => 0x8,
            Color::BrightBlue => 0x9,
            Color::BrightGreen => 0xA,
            Color::BrightCyan => 0xB,
            Color::BrightRed => 0xC,
            Color::BrightMagenta => 0xD,
            Color::Yellow => 0xE,
            Color::White => 0xF,
        }
    }
}

/// The attribute byte of a cell: background in the high nibble, foreground
/// in the low one.
pub open spec fn attribute_of(foreground: Color, background: Color) -> u8 {
    ((background.spec_code() << 4u8) | foreground.spec_code()) as u8
}

/// One cell of the display: a glyph byte and an attribute byte.
#[derive(Clone, Copy, PartialEq, Eq, Debug, Structural)]
pub struct Character {
    pub character: u8,
    pub attribute: u8,
}

impl Character {
    /// The cell that `new` builds.
    pub open spec fn spec_new(character: u8, foreground: Color, background: Color) -> Character {
        Character { character, attribute: attribute_of(foreground, background) }
    }

    /// Creates a cell holding `character` in the given colours.
    pub fn new(character: u8, foreground: Color, background: Color) -> (r: Character)
        ensures
            r == Character::spec_new(character, foreground, background),
    {
        let fg = foreground.code();
        let bg = background.code();
        assert(((bg << 4u8) + fg) as u8 == ((bg << 4u8) | fg) as u8 && (bg << 4u8) + fg < 256) by (bit_vector)
            requires
                fg < 16,
                bg < 16,
        ;
        let attribute = (bg << 4u8) + fg;
        Character { character, attribute }
    }

    /// The glyph and attribute bytes of the cell, in that order.
    pub fn as_bytes(&self) -> (r: (u8, u8))
        ensures
            r == (self.character, self.attribute),
    {
        (self.character, self.attribute)
    }
}

} // verus!
