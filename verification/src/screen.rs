//! What the game screen shows for a session: the goal bar, the parts bin
//! lines, the status line and the help bar.
//!
//! The screen layout and the drawing of these texts belong to the game
//! program; this module decides the texts and their colors.
use vstd::prelude::*;

use crate::parts::PartDef;
use crate::render::cells::CellColor;
use crate::session::{BinEntry, BuildFocus, Mode};
use crate::text::{decimal, push_char, push_decimal};

verus! {

/// The goal bar's mode badge.
pub open spec fn goal_badge_text(mode: Mode) -> Seq<char> {
    match mode {
        Mode::Build => " BUILD "@,
        Mode::Running => " RUNNING "@,
        Mode::Won => " PUZZLE COMPLETE! "@,
    }
}

/// The background color of the goal bar's mode badge.
pub open spec fn goal_badge_color(mode: Mode) -> CellColor {
    match mode {
        Mode::Build => CellColor::Cyan,
        Mode::Running => CellColor::Yellow,
        Mode::Won => CellColor::Green,
    }
}

/// The goal bar's mode badge and its color.
pub fn goal_badge(mode: Mode) -> (r: (&'static str, CellColor))
    ensures
        r.0@ == goal_badge_text(mode),
        r.1 == goal_badge_color(mode),
{
    match mode {
        Mode::Build => (" BUILD ", CellColor::Cyan),
        Mode::Running => (" RUNNING ", CellColor::Yellow),
        Mode::Won => (" PUZZLE COMPLETE! ", CellColor::Green),
    }
}

/// The goal bar's level counter for level `current` (counted from zero) of `num`.
pub fn level_label(current: usize, num: usize) -> (r: String)
    requires
        current < u64::MAX,
    ensures
        r@ == " "@ + decimal((current + 1) as nat) + "/"@ + decimal(num as nat) + " "@,
{
    let mut s = String::from_str(" ");
    push_decimal(&mut s, current as u64 + 1);
    s.append("/");
    push_decimal(&mut s, num as u64);
    s.append(" ");
    s
}

/// The key help shown for a mode and, in Build mode, the focus.
pub open spec fn help_line_text(mode: Mode, focus: BuildFocus) -> Seq<char> {
    match mode {
        Mode::Build => match focus {
            BuildFocus::Cursor =>
                "Arrows:Move | j/k:Part | Enter:Place | Tab:Cycle | Space:Run | n/p:Level | q:Quit"@,
            BuildFocus::MovingPart(_) =>
                "Arrows:Move part | f:Flip | d:Delete | Esc:Deselect | Tab:Next | Space:Run"@,
        },
        Mode::Running => "Space:Stop | q:Quit"@,
        Mode::Won => "n:Next level | p:Prev level | r:Reset | q:Quit"@,
    }
}

pub fn help_line(mode: Mode, focus: BuildFocus) -> (r: &'static str)
    ensures
        r@ == help_line_text(mode, focus),
{
    match mode {
        Mode::Build => match focus {
            BuildFocus::Cursor =>
                "Arrows:Move | j/k:Part | Enter:Place | Tab:Cycle | Space:Run | n/p:Level | q:Quit",
            BuildFocus::MovingPart(_) =>
                "Arrows:Move part | f:Flip | d:Delete | Esc:Deselect | Tab:Next | Space:Run",
        },
        Mode::Running => "Space:Stop | q:Quit",
        Mode::Won => "n:Next level | p:Prev level | r:Reset | q:Quit",
    }
}

/// How a line of the parts bin is styled.
#[derive(Debug, Clone, Copy, PartialEq, Eq, Structural)]
pub enum BinLineStyle {
    /// The selected entry: the part's icon color, bold and reversed.
    Selected(CellColor),
    /// None of the part left: dark gray.
    Empty,
    /// Any other entry: the part's icon color.
    Normal(CellColor),
}

/// The text of a parts bin line: a selection marker, the part's icon and
/// name, and how many are left.
pub open spec fn bin_line_text(entry: BinEntry, selected: bool) -> Seq<char> {
    (if selected { ">"@ } else { " "@ }).push(entry.part_id.icon_glyph()) + " "@
        + entry.part_id.name_text() + " x"@ + decimal(entry.left() as nat)
}

/// A color given as `[r, g, b]`.
pub open spec fn rgb_color(c: [u8; 3]) -> CellColor {
    CellColor::Rgb(c[0], c[1], c[2])
}

pub open spec fn bin_line_style(entry: BinEntry, selected: bool) -> BinLineStyle {
    if selected {
        BinLineStyle::Selected(rgb_color(entry.part_id.icon_rgb()))
    } else if entry.left() == 0 {
        BinLineStyle::Empty
    } else {
        BinLineStyle::Normal(rgb_color(entry.part_id.icon_rgb()))
    }
}

/// The text and style of the parts bin line for `entry`.
pub fn bin_line(entry: &BinEntry, selected: bool) -> (r: (String, BinLineStyle))
    ensures
        r.0@ == bin_line_text(*entry, selected),
        r.1 == bin_line_style(*entry, selected),
{
    let avail = entry.available();
    let mut s = if selected {
        String::from_str(">")
    } else {
        String::from_str(" ")
    };
    push_char(&mut s, entry.part_id.icon_char());
    s.append(" ");
    s.append(entry.part_id.name());
    s.append(" x");
    push_decimal(&mut s, avail as u64);
    let ic = entry.part_id.icon_color();
    let color = CellColor::Rgb(ic[0], ic[1], ic[2]);
    let style = if selected {
        BinLineStyle::Selected(color)
    } else if avail == 0 {
        BinLineStyle::Empty
    } else {
        BinLineStyle::Normal(color)
    };
    (s, style)
}

/// The color of the status line while it shows: bright at first, then fading.
pub open spec fn status_line_color(frames: u64) -> Option<CellColor> {
    if frames == 0 {
        None
    } else if frames > 30 {
        Some(CellColor::Yellow)
    } else {
        Some(CellColor::DarkGray)
    }
}

/// The color of the status line with `frames` frames left; `None` when it
/// no longer shows.
pub fn status_color(frames: u64) -> (r: Option<CellColor>)
    ensures
        r == status_line_color(frames),
{
    if frames == 0 {
        None
    } else if frames > 30 {
        Some(CellColor::Yellow)
    } else {
        Some(CellColor::DarkGray)
    }
}

} // verus!
