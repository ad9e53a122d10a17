//! Glyph tables: for each font, the pixel mask of every character it can draw.

use vstd::prelude::*;

verus! {

/// The pixel mask of one character.
///
/// `bits` holds the mask row by row, the top row in the highest bits and the
/// left column first within a row, so a binary literal reads like the glyph:
/// `0b111_101_101_101_111` is a three-wide, five-high zero.
#[derive(Clone, Copy, Debug, PartialEq, Eq, Structural)]
pub struct Glyph {
    pub width: u8,
    pub height: u8,
    pub bits: u32,
}

impl Glyph {
    /// The position of column `cx`, row `cy` within `bits`, counted from the
    /// lowest bit.
    pub open spec fn bit_index(self, cx: int, cy: int) -> int {
        (self.height - 1 - cy) * self.width + (self.width - 1 - cx)
    }

    /// Whether the mask is set at column `cx`, row `cy`. Positions outside the
    /// glyph are not set.
    pub open spec fn lit_at(self, cx: int, cy: int) -> bool {
        &&& 0 <= cx < self.width
        &&& 0 <= cy < self.height
        &&& self.bit_index(cx, cy) < 32
        &&& (self.bits >> (self.bit_index(cx, cy) as u32)) & 1 == 1
    }

    /// Whether the mask is set at column `cx`, row `cy`.
    pub fn lit(&self, cx: u32, cy: u32) -> (lit: bool)
        ensures
            lit == self.lit_at(cx as int, cy as int),
    {
        if cx >= self.width as u32 || cy >= self.height as u32 {
            return false;
        }
        let width: u32 = self.width as u32;
        let height: u32 = self.height as u32;
        assert((height - 1 - cy) * width <= 254 * 255) by (nonlinear_arith)
            requires
                cy < height <= 255,
                width <= 255,
        ;
        let shift: u32 = (height - 1 - cy) * width + (width - 1 - cx);
        if shift >= 32 {
            return false;
        }
        (self.bits >> shift) & 1 == 1
    }
}

/// The fonts the panel text is drawn in.
#[derive(Clone, Copy, Debug, PartialEq, Eq, Structural)]
pub enum Font {
    /// Three columns by five rows; draws the hour and minute.
    Font3x5,
    /// Three columns by four rows; draws the seconds.
    Font3x4,
    /// Three columns by three rows.
    Font3x3,
    /// Two columns by three rows.
    Font2x3,
}

impl Font {
    /// The mask of `c` in this font; `None` for a character the font lacks.
    pub open spec fn glyph_spec(self, c: char) -> Option<Glyph> {
        match self {
            Font::Font3x5 => match c {
                '0' => Some(Glyph { width: 3, height: 5, bits: 0b111_101_101_101_111 }),
                '1' => Some(Glyph { width: 3, height: 5, bits: 0b110_010_010_010_111 }),
                '2' => Some(Glyph { width: 3, height: 5, bits: 0b111_001_111_100_111 }),
                '3' => Some(Glyph { width: 3, height: 5, bits: 0b111_001_011_001_111 }),
                '4' => Some(Glyph { width: 3, height: 5, bits: 0b101_101_111_001_001 }),
                '5' => Some(Glyph { width: 3, height: 5, bits: 0b111_100_111_001_111 }),
                '6' => Some(Glyph { width: 3, height: 5, bits: 0b111_100_111_101_111 }),
                '7' => Some(Glyph { width: 3, height: 5, bits: 0b111_001_001_001_001 }),
                '8' => Some(Glyph { width: 3, height: 5, bits: 0b111_101_111_101_111 }),
                '9' => Some(Glyph { width: 3, height: 5, bits: 0b111_101_111_001_111 }),
                ':' => Some(Glyph { width: 1, height: 5, bits: 0b0_1_0_1_0 }),
                ' ' => Some(Glyph { width: 3, height: 5, bits: 0b000_000_000_000_000 }),
                'I' => Some(Glyph { width: 1, height: 5, bits: 0b1_1_1_1_1 }),
                _ => None,
            },
            Font::Font3x4 => match c {
                '0' => Some(Glyph { width: 3, height: 4, bits: 0b111_101_101_111 }),
                '1' => Some(Glyph { width: 3, height: 4, bits: 0b110_010_010_111 }),
                '2' => Some(Glyph { width: 3, height: 4, bits: 0b111_001_110_111 }),
                '3' => Some(Glyph { width: 3, height: 4, bits: 0b111_011_001_111 }),
                '4' => Some(Glyph { width: 3, height: 4, bits: 0b101_101_111_001 }),
                '5' => Some(Glyph { width: 3, height: 4, bits: 0b111_110_001_111 }),
                '6' => Some(Glyph { width: 3, height: 4, bits: 0b111_100_111_111 }),
                '7' => Some(Glyph { width: 3, height: 4, bits: 0b111_001_001_001 }),
                '8' => Some(Glyph { width: 3, height: 4, bits: 0b111_111_101_111 }),
                '9' => Some(Glyph { width: 3, height: 4, bits: 0b111_111_001_111 }),
                ':' => Some(Glyph { width: 1, height: 4, bits: 0b0_1_0_1 }),
                ' ' => Some(Glyph { width: 3, height: 4, bits: 0b000_000_000_000 }),
                'I' => Some(Glyph { width: 1, height: 4, bits: 0b1_1_1_1 }),
                _ => None,
            },
            Font::Font3x3 => match c {
                '0' => Some(Glyph { width: 3, height: 3, bits: 0b111_101_111 }),
                '1' => Some(Glyph { width: 3, height: 3, bits: 0b110_010_111 }),
                '2' => Some(Glyph { width: 3, height: 3, bits: 0b110_010_011 }),
                '3' => Some(Glyph { width: 3, height: 3, bits: 0b111_011_111 }),
                '4' => Some(Glyph { width: 3, height: 3, bits: 0b101_111_001 }),
                '5' => Some(Glyph { width: 3, height: 3, bits: 0b011_010_110 }),
                '6' => Some(Glyph { width: 3, height: 3, bits: 0b100_111_111 }),
                '7' => Some(Glyph { width: 3, height: 3, bits: 0b111_001_001 }),
                '8' => Some(Glyph { width: 3, height: 3, bits: 0b011_111_111 }),
                '9' => Some(Glyph { width: 3, height: 3, bits: 0b111_111_001 }),
                ':' => Some(Glyph { width: 1, height: 3, bits: 0b1_0_1 }),
                ' ' => Some(Glyph { width: 1, height: 3, bits: 0b0_0_0 }),
                'I' => Some(Glyph { width: 1, height: 3, bits: 0b1_1_1 }),
                _ => None,
            },
            Font::Font2x3 => match c {
                '0' => Some(Glyph { width: 2, height: 3, bits: 0b00_11_11 }),
                '1' => Some(Glyph { width: 2, height: 3, bits: 0b01_01_01 }),
                '2' => Some(Glyph { width: 2, height: 3, bits: 0b11_00_01 }),
                '3' => Some(Glyph { width: 2, height: 3, bits: 0b10_01_10 }),
                '4' => Some(Glyph { width: 2, height: 3, bits: 0b10_11_01 }),
                '5' => Some(Glyph { width: 2, height: 3, bits: 0b11_00_10 }),
                '6' => Some(Glyph { width: 2, height: 3, bits: 0b10_11_11 }),
                '7' => Some(Glyph { width: 2, height: 3, bits: 0b11_01_01 }),
                '8' => Some(Glyph { width: 2, height: 3, bits: 0b11_11_11 }),
                '9' => Some(Glyph { width: 2, height: 3, bits: 0b11_11_01 }),
                ':' => Some(Glyph { width: 1, height: 3, bits: 0b1_0_1 }),
                ' ' => Some(Glyph { width: 1, height: 3, bits: 0b0_0_0 }),
                'I' => Some(Glyph { width: 1, height: 3, bits: 0b1_1_1 }),
                _ => None,
            },
        }
    }

    /// Looks up the mask of `c`; `None` for a character the font lacks.
    pub fn glyph(self, c: char) -> (glyph: Option<Glyph>)
        ensures
            glyph == self.glyph_spec(c),
    {
        match self {
            Font::Font3x5 => match c {
                '0' => Some(Glyph { width: 3, height: 5, bits: 0b111_101_101_101_111 }),
                '1' => Some(Glyph { width: 3, height: 5, bits: 0b110_010_010_010_111 }),
                '2' => Some(Glyph { width: 3, height: 5, bits: 0b111_001_111_100_111 }),
                '3' => Some(Glyph { width: 3, height: 5, bits: 0b111_001_011_001_111 }),
                '4' => Some(Glyph { width: 3, height: 5, bits: 0b101_101_111_001_001 }),
                '5' => Some(Glyph { width: 3, height: 5, bits: 0b111_100_111_001_111 }),
                '6' => Some(Glyph { width: 3, height: 5, bits: 0b111_100_111_101_111 }),
                '7' => Some(Glyph { width: 3, height: 5, bits: 0b111_001_001_001_001 }),
                '8' => Some(Glyph { width: 3, height: 5, bits: 0b111_101_111_101_111 }),
                '9' => Some(Glyph { width: 3, height: 5, bits: 0b111_101_111_001_111 }),
                ':' => Some(Glyph { width: 1, height: 5, bits: 0b0_1_0_1_0 }),
                ' ' => Some(Glyph { width: 3, height: 5, bits: 0b000_000_000_000_000 }),
                'I' => Some(Glyph { width: 1, height: 5, bits: 0b1_1_1_1_1 }),
                _ => None,
            },
            Font::Font3x4 => match c {
                '0' => Some(Glyph { width: 3, height: 4, bits: 0b111_101_101_111 }),
                '1' => Some(Glyph { width: 3, height: 4, bits: 0b110_010_010_111 }),
                '2' => Some(Glyph { width: 3, height: 4, bits: 0b111_001_110_111 }),
                '3' => Some(Glyph { width: 3, height: 4, bits: 0b111_011_001_111 }),
                '4' => Some(Glyph { width: 3, height: 4, bits: 0b101_101_111_001 }),
                '5' => Some(Glyph { width: 3, height: 4, bits: 0b111_110_001_111 }),
                '6' => Some(Glyph { width: 3, height: 4, bits: 0b111_100_111_111 }),
                '7' => Some(Glyph { width: 3, height: 4, bits: 0b111_001_001_001 }),
                '8' => Some(Glyph { width: 3, height: 4, bits: 0b111_111_101_111 }),
                '9' => Some(Glyph { width: 3, height: 4, bits: 0b111_111_001_111 }),
                ':' => Some(Glyph { width: 1, height: 4, bits: 0b0_1_0_1 }),
                ' ' => Some(Glyph { width: 3, height: 4, bits: 0b000_000_000_000 }),
                'I' => Some(Glyph { width: 1, height: 4, bits: 0b1_1_1_1 }),
                _ => None,
            },
            Font::Font3x3 => match c {
                '0' => Some(Glyph { width: 3, height: 3, bits: 0b111_101_111 }),
                '1' => Some(Glyph { width: 3, height: 3, bits: 0b110_010_111 }),
                '2' => Some(Glyph { width: 3, height: 3, bits: 0b110_010_011 }),
                '3' => Some(Glyph { width: 3, height: 3, bits: 0b111_011_111 }),
                '4' => Some(Glyph { width: 3, height: 3, bits: 0b101_111_001 }),
                '5' => Some(Glyph { width: 3, height: 3, bits: 0b011_010_110 }),
                '6' => Some(Glyph { width: 3, height: 3, bits: 0b100_111_111 }),
                '7' => Some(Glyph { width: 3, height: 3, bits: 0b111_001_001 }),
                '8' => Some(Glyph { width: 3, height: 3, bits: 0b011_111_111 }),
                '9' => Some(Glyph { width: 3, height: 3, bits: 0b111_111_001 }),
                ':' => Some(Glyph { width: 1, height: 3, bits: 0b1_0_1 }),
                ' ' => Some(Glyph { width: 1, height: 3, bits: 0b0_0_0 }),
                'I' => Some(Glyph { width: 1, height: 3, bits: 0b1_1_1 }),
                _ => None,
            },
            Font::Font2x3 => match c {
                '0' => Some(Glyph { width: 2, height: 3, bits: 0b00_11_11 }),
                '1' => Some(Glyph { width: 2, height: 3, bits: 0b01_01_01 }),
                '2' => Some(Glyph { width: 2, height: 3, bits: 0b11_00_01 }),
                '3' => Some(Glyph { width: 2, height: 3, bits: 0b10_01_10 }),
                '4' => Some(Glyph { width: 2, height: 3, bits: 0b10_11_01 }),
                '5' => Some(Glyph { width: 2, height: 3, bits: 0b11_00_10 }),
                '6' => Some(Glyph { width: 2, height: 3, bits: 0b10_11_11 }),
                '7' => Some(Glyph { width: 2, height: 3, bits: 0b11_01_01 }),
                '8' => Some(Glyph { width: 2, height: 3, bits: 0b11_11_11 }),
                '9' => Some(Glyph { width: 2, height: 3, bits: 0b11_11_01 }),
                ':' => Some(Glyph { width: 1, height: 3, bits: 0b1_0_1 }),
                ' ' => Some(Glyph { width: 1, height: 3, bits: 0b0_0_0 }),
                'I' => Some(Glyph { width: 1, height: 3, bits: 0b1_1_1 }),
                _ => None,
            },
        }
    }
}

} // verus!
