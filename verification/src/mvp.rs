//! The minimal prototype game: its modes, its HUD lines, and where its text
//! renderer puts characters.
use vstd::prelude::*;

use crate::render::cells::{CellColor, CellRect, Glyph, TermCell};
use crate::text::{decimal, push_decimal};

verus! {

/// The prototype's interaction mode.
#[derive(Debug, Clone, Copy, PartialEq, Eq, Structural)]
pub enum Mode {
    Normal,
    Place { bin_idx: usize },
    Edit { part_idx: usize },
    Run,
}

/// The word that names a mode in the HUD.
pub open spec fn mode_word_text(mode: Mode) -> Seq<char> {
    match mode {
        Mode::Normal => "NORMAL"@,
        Mode::Place { .. } => "PLACE"@,
        Mode::Edit { .. } => "EDIT"@,
        Mode::Run => "RUN"@,
    }
}

pub fn mode_word(mode: &Mode) -> (r: &'static str)
    ensures
        r@ == mode_word_text(*mode),
{
    match mode {
        Mode::Normal => "NORMAL",
        Mode::Place { .. } => "PLACE",
        Mode::Edit { .. } => "EDIT",
        Mode::Run => "RUN",
    }
}

/// The first HUD line: mode, cursor position (as already formatted text),
/// number of parts and frame number.
pub open spec fn hud_line1_text(
    mode: Mode,
    cursor_x: Seq<char>,
    cursor_y: Seq<char>,
    parts: nat,
    frame: nat,
) -> Seq<char> {
    "MODE: "@ + mode_word_text(mode) + " | ("@ + cursor_x + ", "@ + cursor_y + ") | parts: "@
        + decimal(parts) + " | frame: "@ + decimal(frame)
}

pub fn hud_line1(mode: &Mode, cursor_x: &str, cursor_y: &str, parts: usize, frame: u64) -> (r:
    String)
    ensures
        r@ == hud_line1_text(*mode, cursor_x@, cursor_y@, parts as nat, frame as nat),
{
    let mut line = String::from_str("MODE: ");
    line.append(mode_word(mode));
    line.append(" | (");
    line.append(cursor_x);
    line.append(", ");
    line.append(cursor_y);
    line.append(") | parts: ");
    push_decimal(&mut line, parts as u64);
    line.append(" | frame: ");
    push_decimal(&mut line, frame);
    line
}

/// The second HUD line: the keys of the mode.
pub open spec fn hud_line2_text(mode: Mode) -> Seq<char> {
    match mode {
        Mode::Normal => "[p]lace [e]dit [Space]run [x]del [f]lip [u]ndo [?]help [q]uit"@,
        Mode::Place { .. } => "[hjkl]move [JK]scroll [1-5]select [Enter]place [Esc]cancel"@,
        Mode::Edit { .. } => "[hjkl]move [f]lip [x]del [Enter/Esc]done"@,
        Mode::Run => "[Esc/Space] stop"@,
    }
}

pub fn hud_line2(mode: &Mode) -> (r: String)
    ensures
        r@ == hud_line2_text(*mode),
{
    match mode {
        Mode::Normal => String::from_str(
            "[p]lace [e]dit [Space]run [x]del [f]lip [u]ndo [?]help [q]uit",
        ),
        Mode::Place { .. } => String::from_str(
            "[hjkl]move [JK]scroll [1-5]select [Enter]place [Esc]cancel",
        ),
        Mode::Edit { .. } => String::from_str("[hjkl]move [f]lip [x]del [Enter/Esc]done"),
        Mode::Run => String::from_str("[Esc/Space] stop"),
    }
}

/// The color of the mode word and the cursor.
pub open spec fn mode_color_of(mode: Mode) -> CellColor {
    match mode {
        Mode::Normal => CellColor::Cyan,
        Mode::Place { .. } => CellColor::Yellow,
        Mode::Edit { .. } => CellColor::Green,
        Mode::Run => CellColor::Red,
    }
}

pub fn mode_color(mode: &Mode) -> (r: CellColor)
    ensures
        r == mode_color_of(*mode),
{
    match mode {
        Mode::Normal => CellColor::Cyan,
        Mode::Place { .. } => CellColor::Yellow,
        Mode::Edit { .. } => CellColor::Green,
        Mode::Run => CellColor::Red,
    }
}

// ── Text renderer geometry ───────────────────────────────────────

/// The far edges of `area` fit a `u16`.
pub open spec fn area_fits(area: CellRect) -> bool {
    area.x + area.width <= u16::MAX && area.y + area.height <= u16::MAX
}

/// Whether the cell (`x`, `y`) is inside `area`.
pub fn in_area(x: u16, y: u16, area: CellRect) -> (r: bool)
    requires
        area_fits(area),
    ensures
        r == area.holds(x as int, y as int),
{
    x >= area.x && x < area.x + area.width && y >= area.y && y < area.y + area.height
}

/// The cells of the `w` x `h` region at (`x`, `y`) that lie inside `area`,
/// row by row; the first `n` positions of the region.
pub open spec fn region_cells_upto(x: int, y: int, w: int, area: CellRect, n: int) -> Seq<(u16, u16)>
    decreases n,
{
    if n <= 0 {
        Seq::empty()
    } else {
        let prev = region_cells_upto(x, y, w, area, n - 1);
        let (col, row) = (x + (n - 1) % w, y + (n - 1) / w);
        if area.holds(col, row) {
            prev.push((col as u16, row as u16))
        } else {
            prev
        }
    }
}

/// The cells of a region that a style change (dimming, a background tint) applies to.
pub fn region_cells(x: u16, y: u16, w: u16, h: u16, area: CellRect) -> (r: Vec<(u16, u16)>)
    requires
        area_fits(area),
        x + w <= u16::MAX,
        y + h <= u16::MAX,
    ensures
        r@ == region_cells_upto(x as int, y as int, w as int, area, w * h),
{
    let mut cells: Vec<(u16, u16)> = Vec::new();
    let mut row = y;
    while row < y + h
        invariant
            area_fits(area),
            x + w <= u16::MAX,
            y + h <= u16::MAX,
            y <= row <= y + h,
            cells@ == region_cells_upto(x as int, y as int, w as int, area, (row - y) * w),
        decreases y + h - row,
    {
        let mut col = x;
        while col < x + w
            invariant
                area_fits(area),
                x + w <= u16::MAX,
                y + h <= u16::MAX,
                y <= row < y + h,
                x <= col <= x + w,
                cells@ == region_cells_upto(
                    x as int,
                    y as int,
                    w as int,
                    area,
                    (row - y) * w + (col - x),
                ),
            decreases x + w - col,
        {
            proof {
                vstd::arithmetic::div_mod::lemma_fundamental_div_mod_converse(
                    (row - y) * w + (col - x),
                    w as int,
                    (row - y) as int,
                    (col - x) as int,
                );
            }
            if in_area(col, row, area) {
                cells.push((col, row));
            }
            col = col + 1;
        }
        assert((row - y) * w + w == (row + 1 - y) * w) by (nonlinear_arith);
        row = row + 1;
    }
    assert((row - y) * w == w * h) by (nonlinear_arith)
        requires
            row == y + h,
    ;
    cells
}

// ── Ball, cursor and overlays ────────────────────────────────────

/// Color of the ball and its trail's head.
pub const BALL_COLOR: [u8; 3] = [255, 107, 53];

/// The ball's glyph at cell (`cell_x`, `cell_y`), if that cell is inside `area`.
pub fn draw_ball_text(cell_x: u16, cell_y: u16, area: CellRect) -> (r: Option<Glyph>)
    requires
        area_fits(area),
    ensures
        r == (if area.holds(cell_x as int, cell_y as int) {
            Some(Glyph { x: cell_x, y: cell_y, ch: '\u{25CF}', color: BALL_COLOR })
        } else {
            None::<Glyph>
        }),
{
    if in_area(cell_x, cell_y, area) {
        Some(Glyph { x: cell_x, y: cell_y, ch: '\u{25CF}', color: BALL_COLOR })
    } else {
        None
    }
}

/// The color of the cursor in a mode.
pub open spec fn cursor_color_of(mode: Mode) -> CellColor {
    match mode {
        Mode::Place { .. } => CellColor::Yellow,
        Mode::Edit { .. } => CellColor::Green,
        _ => CellColor::Cyan,
    }
}

/// The cursor's cell write: a cross at (`cx`, `cy`) in the mode's color,
/// shown in every mode but Run and only inside `area`.
pub fn draw_cursor_text(mode: &Mode, cx: u16, cy: u16, area: CellRect) -> (r: Option<TermCell>)
    requires
        area_fits(area),
    ensures
        r == (if *mode != Mode::Run && area.holds(cx as int, cy as int) {
            Some(
                TermCell { x: cx, y: cy, ch: '\u{253C}', fg: cursor_color_of(*mode), bg: None },
            )
        } else {
            None::<TermCell>
        }),
{
    let is_run = match mode {
        Mode::Run => true,
        _ => false,
    };
    if is_run || !in_area(cx, cy, area) {
        return None;
    }
    let fg = match mode {
        Mode::Place { .. } => CellColor::Yellow,
        Mode::Edit { .. } => CellColor::Green,
        _ => CellColor::Cyan,
    };
    Some(TermCell { x: cx, y: cy, ch: '\u{253C}', fg, bg: None })
}

/// A `w` x `h` rectangle centered in `area` (at its top-left corner when it
/// does not fit).
pub fn popup_rect(area: CellRect, w: u16, h: u16) -> (r: CellRect)
    requires
        area_fits(area),
    ensures
        r.x == area.x + (if area.width > w { (area.width - w) / 2 } else { 0 }),
        r.y == area.y + (if area.height > h { (area.height - h) / 2 } else { 0 }),
        r.width == w,
        r.height == h,
{
    let x = area.x + area.width.saturating_sub(w) / 2;
    let y = area.y + area.height.saturating_sub(h) / 2;
    CellRect { x, y, width: w, height: h }
}

/// Color of the ramp's wood.
pub const WOOD: [u8; 3] = [196, 149, 106];

/// Column of the ramp's slope in row `row` of a `w` x `h` ramp: rising to the
/// right (`/`), or falling to the right when flipped.
pub open spec fn ramp_diag(row: int, w: int, h: int, flipped: bool) -> int {
    let hh = if h >= 1 { h } else { 1 };
    if !flipped {
        w - 1 - (row * w) / hh
    } else {
        (row * w) / hh
    }
}

/// What the ramp shows at (`col`, `row`) of its cells: the base line in the
/// bottom row, the slope, and shading on the solid side of the slope.
pub open spec fn ramp_cell(
    x: int,
    y: int,
    w: int,
    h: int,
    flipped: bool,
    area: CellRect,
    row: int,
    col: int,
) -> Option<Glyph> {
    let (px, py) = (x + col, y + row);
    if !area.holds(px, py) {
        None
    } else if row == h - 1 {
        Some(Glyph { x: px as u16, y: py as u16, ch: '\u{2500}', color: WOOD })
    } else {
        let diag = ramp_diag(row, w, h, flipped);
        if col == diag {
            Some(
                Glyph {
                    x: px as u16,
                    y: py as u16,
                    ch: if !flipped { '\u{2571}' } else { '\u{2572}' },
                    color: WOOD,
                },
            )
        } else if (!flipped && col > diag) || (flipped && col < diag) {
            Some(Glyph { x: px as u16, y: py as u16, ch: '\u{2591}', color: WOOD })
        } else {
            None
        }
    }
}

/// The ramp's glyphs for its first `n` cells, row by row.
pub open spec fn ramp_cells_upto(
    x: int,
    y: int,
    w: int,
    h: int,
    flipped: bool,
    area: CellRect,
    n: int,
) -> Seq<Glyph>
    decreases n,
{
    if n <= 0 {
        Seq::empty()
    } else {
        let prev = ramp_cells_upto(x, y, w, h, flipped, area, n - 1);
        match ramp_cell(x, y, w, h, flipped, area, (n - 1) / w, (n - 1) % w) {
            Some(g) => prev.push(g),
            None => prev,
        }
    }
}

/// A ramp's cells and their positions fit the integer types the drawing uses.
pub open spec fn ramp_fits(x: u16, y: u16, w: u16, h: u16, area: CellRect) -> bool {
    &&& area_fits(area)
    &&& (w > 0 && h > 0 ==> {
        &&& x + w - 1 <= u16::MAX
        &&& y + h - 1 <= u16::MAX
        &&& (h - 1) * w <= i32::MAX
    })
}

/// The glyphs of a `cell_w` x `cell_h` ramp at (`cell_x`, `cell_y`), clipped to `area`.
pub fn draw_ramp_text(
    cell_x: u16,
    cell_y: u16,
    cell_w: u16,
    cell_h: u16,
    flipped: bool,
    area: CellRect,
) -> (r: Vec<Glyph>)
    requires
        ramp_fits(cell_x, cell_y, cell_w, cell_h, area),
    ensures
        r@ == ramp_cells_upto(
            cell_x as int,
            cell_y as int,
            cell_w as int,
            cell_h as int,
            flipped,
            area,
            cell_w * cell_h,
        ),
{
    let mut out: Vec<Glyph> = Vec::new();
    if cell_h == 0 || cell_w == 0 {
        assert(cell_w * cell_h == 0) by (nonlinear_arith)
            requires
                cell_h == 0 || cell_w == 0,
        ;
        return out;
    }
    let mut row: u16 = 0;
    while row < cell_h
        invariant
            ramp_fits(cell_x, cell_y, cell_w, cell_h, area),
            cell_w > 0,
            cell_h > 0,
            row <= cell_h,
            out@ == ramp_cells_upto(
                cell_x as int,
                cell_y as int,
                cell_w as int,
                cell_h as int,
                flipped,
                area,
                row * cell_w,
            ),
        decreases cell_h - row,
    {
        let mut col: u16 = 0;
        while col < cell_w
            invariant
                ramp_fits(cell_x, cell_y, cell_w, cell_h, area),
                cell_w > 0,
                cell_h > 0,
                row < cell_h,
                col <= cell_w,
                out@ == ramp_cells_upto(
                    cell_x as int,
                    cell_y as int,
                    cell_w as int,
                    cell_h as int,
                    flipped,
                    area,
                    row * cell_w + col,
                ),
            decreases cell_w - col,
        {
            proof {
                vstd::arithmetic::div_mod::lemma_fundamental_div_mod_converse(
                    row * cell_w + col,
                    cell_w as int,
                    row as int,
                    col as int,
                );
            }
            let px = cell_x + col;
            let py = cell_y + row;
            if px < area.x || px >= area.x + area.width || py < area.y || py >= area.y
                + area.height {
                col = col + 1;
                continue;
            }
            // Bottom row
            if row == cell_h - 1 {
                out.push(Glyph { x: px, y: py, ch: '\u{2500}', color: WOOD });
                col = col + 1;
                continue;
            }
            assert(row * cell_w <= (cell_h - 1) * cell_w) by (nonlinear_arith)
                requires
                    row < cell_h,
            ;
            assert(0 <= row * cell_w) by (nonlinear_arith);
            let hh: i32 = if cell_h >= 1 { cell_h as i32 } else { 1 };
            // Diagonal position
            let diag_col: i32 = if !flipped {
                // slope-right /: diagonal goes from bottom-left to top-right
                cell_w as i32 - 1 - (row as i32 * cell_w as i32 / hh)
            } else {
                // slope-left \: diagonal goes from top-left to bottom-right
                row as i32 * cell_w as i32 / hh
            };
            assert(diag_col == ramp_diag(row as int, cell_w as int, cell_h as int, flipped));
            if col as i32 == diag_col {
                let ch = if !flipped { '\u{2571}' } else { '\u{2572}' };
                out.push(Glyph { x: px, y: py, ch, color: WOOD });
            } else {
                // Fill body area
                let inside = if !flipped {
                    col as i32 > diag_col && row < cell_h - 1
                } else {
                    (col as i32) < diag_col && row < cell_h - 1
                };
                if inside {
                    out.push(Glyph { x: px, y: py, ch: '\u{2591}', color: WOOD });
                }
            }
            col = col + 1;
        }
        assert(row * cell_w + cell_w == (row + 1) * cell_w) by (nonlinear_arith);
        row = row + 1;
    }
    assert(row * cell_w == cell_w * cell_h) by (nonlinear_arith)
        requires
            row == cell_h,
    ;
    out
}

} // verus!
