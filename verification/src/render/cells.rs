//! Terminal-cell geometry and the cell writes that the renderers produce.
//!
//! The renderers compute which terminal cells to write and with what; a
//! terminal backend then applies those writes to its own buffer.
use vstd::prelude::*;

verus! {

/// A rectangle of terminal cells (column, row, width, height).
#[derive(Debug, Clone, Copy, PartialEq, Eq, Structural)]
pub struct CellRect {
    pub x: u16,
    pub y: u16,
    pub width: u16,
    pub height: u16,
}

impl CellRect {
    /// One past the last column, saturating at the coordinate limit.
    pub open spec fn right_edge(self) -> int {
        if self.x + self.width > u16::MAX { u16::MAX as int } else { self.x + self.width }
    }

    /// One past the last row, saturating at the coordinate limit.
    pub open spec fn bottom_edge(self) -> int {
        if self.y + self.height > u16::MAX { u16::MAX as int } else { self.y + self.height }
    }

    pub fn right(&self) -> (r: u16)
        ensures
            r == self.right_edge(),
    {
        self.x.saturating_add(self.width)
    }

    pub fn bottom(&self) -> (r: u16)
        ensures
            r == self.bottom_edge(),
    {
        self.y.saturating_add(self.height)
    }

    /// Whether the cell `(col, row)` lies inside the rectangle.
    pub open spec fn holds(self, col: int, row: int) -> bool {
        self.x <= col < self.x + self.width && self.y <= row < self.y + self.height
    }
}

/// A terminal color.
#[derive(Debug, Clone, Copy, PartialEq, Eq, Structural)]
pub enum CellColor {
    /// The terminal's default color.
    Reset,
    Black,
    White,
    DarkGray,
    Cyan,
    Yellow,
    Green,
    Red,
    Rgb(u8, u8, u8),
}

/// A single character placed in a cell with a foreground color.
#[derive(Debug, Clone, Copy, PartialEq, Eq)]
pub struct Glyph {
    pub x: u16,
    pub y: u16,
    pub ch: char,
    pub color: [u8; 3],
}

/// One terminal cell write: the character, its foreground color, and the
/// background color (`None` leaves the cell's background as it is).
#[derive(Debug, Clone, Copy, PartialEq, Eq, Structural)]
pub struct TermCell {
    pub x: u16,
    pub y: u16,
    pub ch: char,
    pub fg: CellColor,
    pub bg: Option<CellColor>,
}

/// The glyph that sits at the center cell of `area`, if that cell is inside it.
pub open spec fn centered_glyph(area: CellRect, ch: char, color: [u8; 3]) -> Option<Glyph> {
    if area.width == 0 || area.height == 0 {
        None
    } else {
        let cx = area.x + area.width / 2;
        let cy = area.y + area.height / 2;
        if cx < area.right_edge() && cy < area.bottom_edge() {
            Some(Glyph { x: cx as u16, y: cy as u16, ch: ch, color: color })
        } else {
            None
        }
    }
}

/// The center cell of a non-empty area has coordinates that fit a `u16`.
pub open spec fn center_fits(area: CellRect) -> bool {
    area.width > 0 && area.height > 0 ==> {
        &&& area.x + area.width / 2 <= u16::MAX
        &&& area.y + area.height / 2 <= u16::MAX
    }
}

/// Place `ch` at the center cell of `area`.
pub fn place_centered(area: CellRect, ch: char, color: [u8; 3]) -> (r: Option<Glyph>)
    requires
        center_fits(area),
    ensures
        r == centered_glyph(area, ch, color),
{
    if area.width == 0 || area.height == 0 {
        return None;
    }
    let cx = area.x + area.width / 2;
    let cy = area.y + area.height / 2;
    if cx < area.right() && cy < area.bottom() {
        Some(Glyph { x: cx, y: cy, ch, color })
    } else {
        None
    }
}

} // verus!
