//! The framebuffer that the host reads: a 32×32 grid of colour indices.
use vstd::prelude::*;

verus! {

/// First byte of the framebuffer.
pub const FRAMEBUFFER_START: u16 = 0x0200;

/// One past the last byte of the framebuffer.
pub const FRAMEBUFFER_END: u16 = 0x0600;

/// Width and height of the grid.
pub const SCREEN_SIDE: usize = 32;

/// The colours of the palette.
#[derive(Clone, Copy, Debug, PartialEq, Eq, Structural)]
pub enum Colour {
    Black,
    White,
    Grey,
    Red,
    Green,
    Blue,
    Magenta,
    Yellow,
    Cyan,
}

/// The colour of a framebuffer byte.
pub open spec fn colour_of(byte: u8) -> Colour {
    if byte == 0 {
        Colour::Black
    } else if byte == 1 {
        Colour::White
    } else if byte == 2 || byte == 9 {
        Colour::Grey
    } else if byte == 3 || byte == 10 {
        Colour::Red
    } else if byte == 4 || byte == 11 {
        Colour::Green
    } else if byte == 5 || byte == 12 {
        Colour::Blue
    } else if byte == 6 || byte == 13 {
        Colour::Magenta
    } else if byte == 7 || byte == 14 {
        Colour::Yellow
    } else {
        Colour::Cyan
    }
}

/// Looks up the colour of a framebuffer byte.
pub fn colour(byte: u8) -> (r: Colour)
    ensures
        r == colour_of(byte),
{
    match byte {
        0 => Colour::Black,
        1 => Colour::White,
        2 | 9 => Colour::Grey,
        3 | 10 => Colour::Red,
        4 | 11 => Colour::Green,
        5 | 12 => Colour::Blue,
        6 | 13 => Colour::Magenta,
        7 | 14 => Colour::Yellow,
        _ => Colour::Cyan,
    }
}

} // verus!
