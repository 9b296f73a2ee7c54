//! The value types a canvas is made of: colors, style flags, line styles
//! and the cell itself (one glyph with its colors and flags).
//!
//! A color may be `Transparent` and a glyph may be the null character:
//! such components act as "keep what is there" when a cell is written
//! over another one (see [`merged`]). Cells stored in a canvas never hold
//! them, so reading a canvas always yields concrete cells.

use vstd::prelude::*;

verus! {

/// A terminal palette color. `Transparent` is only meaningful inside a
/// cell that is being written: it keeps the color already on the canvas.
#[derive(Clone, Copy, Debug, PartialEq, Eq, Structural)]
pub enum Color {
    Black,
    DarkBlue,
    DarkGreen,
    Teal,
    DarkRed,
    Magenta,
    Olive,
    Silver,
    Gray,
    Blue,
    Green,
    Aqua,
    Red,
    Pink,
    Yellow,
    White,
    Transparent,
}

/// Style flags of one cell (bold, italic, underline variants and the
/// like), kept as a plain bit set. The flag assignment is the host
/// terminal's business; the core only stores and compares the bits.
#[derive(Clone, Copy, Debug, PartialEq, Eq, Structural)]
pub struct CharFlags {
    pub bits: u16,
}

impl CharFlags {
    pub fn none() -> (f: CharFlags)
        ensures
            f == (CharFlags { bits: 0u16 }),
    {
        CharFlags { bits: 0 }
    }
}

/// One canvas position: a character glyph, its foreground and background
/// colors, and its style flags.
#[derive(Clone, Copy, Debug, PartialEq, Eq, Structural)]
pub struct Cell {
    pub code: char,
    pub fore: Color,
    pub back: Color,
    pub flags: CharFlags,
}

/// The cell a fresh canvas is filled with: a blank glyph, white on black.
pub open spec fn default_cell() -> Cell {
    Cell { code: ' ', fore: Color::White, back: Color::Black, flags: CharFlags { bits: 0 } }
}

/// A cell with no "keep what is there" components; every cell stored in a
/// canvas is concrete.
pub open spec fn concrete(c: Cell) -> bool {
    c.code != '\0' && c.fore != Color::Transparent && c.back != Color::Transparent
}

/// The result of writing `new` over `old`: the null glyph and transparent
/// colors keep the old component, everything else replaces it; flags are
/// always replaced.
pub open spec fn merged(old: Cell, new: Cell) -> Cell {
    Cell {
        code: if new.code != '\0' {
            new.code
        } else {
            old.code
        },
        fore: if new.fore != Color::Transparent {
            new.fore
        } else {
            old.fore
        },
        back: if new.back != Color::Transparent {
            new.back
        } else {
            old.back
        },
        flags: new.flags,
    }
}

impl Cell {
    pub fn new(code: char, fore: Color, back: Color, flags: CharFlags) -> (c: Cell)
        ensures
            c == (Cell { code, fore, back, flags }),
    {
        Cell { code, fore, back, flags }
    }

    /// The default canvas filling.
    pub fn blank() -> (c: Cell)
        ensures
            c == default_cell(),
    {
        Cell { code: ' ', fore: Color::White, back: Color::Black, flags: CharFlags { bits: 0 } }
    }
}

/// The visual style of lines and rectangle outlines.
#[derive(Clone, Copy, Debug, PartialEq, Eq, Structural)]
pub enum LineType {
    Single,
    Double,
    SingleThick,
    Border,
    Ascii,
    AsciiRound,
    SingleRound,
    Braille,
}

/// The glyphs a line style draws with: the four corners, the four sides
/// of a rectangle outline, and the glyphs of free-standing horizontal and
/// vertical lines.
#[derive(Clone, Copy, Debug, PartialEq, Eq, Structural)]
pub struct LineGlyphs {
    pub corner_tl: char,
    pub h_top: char,
    pub corner_tr: char,
    pub v_right: char,
    pub corner_br: char,
    pub h_bottom: char,
    pub corner_bl: char,
    pub v_left: char,
    pub horizontal: char,
    pub vertical: char,
}

/// The glyph set of each line style.
pub open spec fn spec_line_glyphs(t: LineType) -> LineGlyphs {
    match t {
        LineType::Single => LineGlyphs {
            corner_tl: '\u{250C}',
            h_top: '\u{2500}',
            corner_tr: '\u{2510}',
            v_right: '\u{2502}',
            corner_br: '\u{2518}',
            h_bottom: '\u{2500}',
            corner_bl: '\u{2514}',
            v_left: '\u{2502}',
            horizontal: '\u{2500}',
            vertical: '\u{2502}',
        },
        LineType::Double => LineGlyphs {
            corner_tl: '\u{2554}',
            h_top: '\u{2550}',
            corner_tr: '\u{2557}',
            v_right: '\u{2551}',
            corner_br: '\u{255D}',
            h_bottom: '\u{2550}',
            corner_bl: '\u{255A}',
            v_left: '\u{2551}',
            horizontal: '\u{2550}',
            vertical: '\u{2551}',
        },
        LineType::SingleThick => LineGlyphs {
            corner_tl: '\u{250F}',
            h_top: '\u{2501}',
            corner_tr: '\u{2513}',
            v_right: '\u{2503}',
            corner_br: '\u{251B}',
            h_bottom: '\u{2501}',
            corner_bl: '\u{2517}',
            v_left: '\u{2503}',
            horizontal: '\u{2501}',
            vertical: '\u{2503}',
        },
        LineType::Border => LineGlyphs {
            corner_tl: '\u{2584}',
            h_top: '\u{2584}',
            corner_tr: '\u{2584}',
            v_right: '\u{2588}',
            corner_br: '\u{2580}',
            h_bottom: '\u{2580}',
            corner_bl: '\u{2580}',
            v_left: '\u{2588}',
            horizontal: '\u{2588}',
            vertical: '\u{2588}',
        },
        LineType::Ascii => LineGlyphs {
            corner_tl: '+',
            h_top: '-',
            corner_tr: '+',
            v_right: '|',
            corner_br: '+',
            h_bottom: '-',
            corner_bl: '+',
            v_left: '|',
            horizontal: '-',
            vertical: '|',
        },
        LineType::AsciiRound => LineGlyphs {
            corner_tl: '/',
            h_top: '-',
            corner_tr: '\\',
            v_right: '|',
            corner_br: '/',
            h_bottom: '-',
            corner_bl: '\\',
            v_left: '|',
            horizontal: '-',
            vertical: '|',
        },
        LineType::SingleRound => LineGlyphs {
            corner_tl: '\u{256D}',
            h_top: '\u{2500}',
            corner_tr: '\u{256E}',
            v_right: '\u{2502}',
            corner_br: '\u{256F}',
            h_bottom: '\u{2500}',
            corner_bl: '\u{2570}',
            v_left: '\u{2502}',
            horizontal: '\u{2500}',
            vertical: '\u{2502}',
        },
        LineType::Braille => LineGlyphs {
            corner_tl: '\u{28F6}',
            h_top: '\u{2836}',
            corner_tr: '\u{28F6}',
            v_right: '\u{28FF}',
            corner_br: '\u{283F}',
            h_bottom: '\u{2836}',
            corner_bl: '\u{283F}',
            v_left: '\u{28FF}',
            horizontal: '\u{2836}',
            vertical: '\u{28FF}',
        },
    }
}

pub fn line_glyphs(t: LineType) -> (g: LineGlyphs)
    ensures
        g == spec_line_glyphs(t),
{
    match t {
        LineType::Single => LineGlyphs {
            corner_tl: '\u{250C}',
            h_top: '\u{2500}',
            corner_tr: '\u{2510}',
            v_right: '\u{2502}',
            corner_br: '\u{2518}',
            h_bottom: '\u{2500}',
            corner_bl: '\u{2514}',
            v_left: '\u{2502}',
            horizontal: '\u{2500}',
            vertical: '\u{2502}',
        },
        LineType::Double => LineGlyphs {
            corner_tl: '\u{2554}',
            h_top: '\u{2550}',
            corner_tr: '\u{2557}',
            v_right: '\u{2551}',
            corner_br: '\u{255D}',
            h_bottom: '\u{2550}',
            corner_bl: '\u{255A}',
            v_left: '\u{2551}',
            horizontal: '\u{2550}',
            vertical: '\u{2551}',
        },
        LineType::SingleThick => LineGlyphs {
            corner_tl: '\u{250F}',
            h_top: '\u{2501}',
            corner_tr: '\u{2513}',
            v_right: '\u{2503}',
            corner_br: '\u{251B}',
            h_bottom: '\u{2501}',
            corner_bl: '\u{2517}',
            v_left: '\u{2503}',
            horizontal: '\u{2501}',
            vertical: '\u{2503}',
        },
        LineType::Border => LineGlyphs {
            corner_tl: '\u{2584}',
            h_top: '\u{2584}',
            corner_tr: '\u{2584}',
            v_right: '\u{2588}',
            corner_br: '\u{2580}',
            h_bottom: '\u{2580}',
            corner_bl: '\u{2580}',
            v_left: '\u{2588}',
            horizontal: '\u{2588}',
            vertical: '\u{2588}',
        },
        LineType::Ascii => LineGlyphs {
            corner_tl: '+',
            h_top: '-',
            corner_tr: '+',
            v_right: '|',
            corner_br: '+',
            h_bottom: '-',
            corner_bl: '+',
            v_left: '|',
            horizontal: '-',
            vertical: '|',
        },
        LineType::AsciiRound => LineGlyphs {
            corner_tl: '/',
            h_top: '-',
            corner_tr: '\\',
            v_right: '|',
            corner_br: '/',
            h_bottom: '-',
            corner_bl: '\\',
            v_left: '|',
            horizontal: '-',
            vertical: '|',
        },
        LineType::SingleRound => LineGlyphs {
            corner_tl: '\u{256D}',
            h_top: '\u{2500}',
            corner_tr: '\u{256E}',
            v_right: '\u{2502}',
            corner_br: '\u{256F}',
            h_bottom: '\u{2500}',
            corner_bl: '\u{2570}',
            v_left: '\u{2502}',
            horizontal: '\u{2500}',
            vertical: '\u{2502}',
        },
        LineType::Braille => LineGlyphs {
            corner_tl: '\u{28F6}',
            h_top: '\u{2836}',
            corner_tr: '\u{28F6}',
            v_right: '\u{28FF}',
            corner_br: '\u{283F}',
            h_bottom: '\u{2836}',
            corner_bl: '\u{283F}',
            v_left: '\u{28FF}',
            horizontal: '\u{2836}',
            vertical: '\u{28FF}',
        },
    }
}

} // verus!
