//! Half-block terminal rendering.
//!
//! Uses the upper-half-block character (U+2580) to get 1x2 sub-cell resolution
//! with **full RGB color** for both halves via fg (top) and bg (bottom).
//! Lower spatial resolution than braille (2 subpixels vs 8 per cell) but
//! vastly better color fidelity.
use vstd::arithmetic::div_mod::lemma_fundamental_div_mod_converse;
use vstd::prelude::*;

use super::cells::{CellColor, CellRect, TermCell};
use super::pixels::Pixels;

verus! {

/// A channel blended against black by the pixel's alpha.
pub open spec fn over_black(v: u8, a: u8) -> u8 {
    (v * a / 255) as u8
}

/// The color of the pixel at (`x`, `y`) blended against black.
pub open spec fn blended(img: Pixels, x: int, y: int) -> CellColor {
    let a = img.channel(x, y, 3);
    CellColor::Rgb(
        over_black(img.channel(x, y, 0), a),
        over_black(img.channel(x, y, 1), a),
        over_black(img.channel(x, y, 2), a),
    )
}

pub open spec fn halfblock_cols(img: Pixels, area: CellRect) -> int {
    if img.width < area.width { img.width as int } else { area.width as int }
}

pub open spec fn halfblock_rows(img: Pixels, area: CellRect) -> int {
    if img.height / 2 < area.height { (img.height / 2) as int } else { area.height as int }
}

/// Every filled cell has coordinates that fit a `u16`.
pub open spec fn halfblock_fits(img: Pixels, area: CellRect) -> bool {
    halfblock_cols(img, area) > 0 && halfblock_rows(img, area) > 0 ==> {
        &&& area.x + halfblock_cols(img, area) - 1 <= u16::MAX
        &&& area.y + halfblock_rows(img, area) - 1 <= u16::MAX
    }
}

/// The write for cell (`cx`, `cy`): the upper pixel is the foreground of an
/// upper half block, the lower pixel (black below the image) the background.
pub open spec fn halfblock_cell(img: Pixels, area: CellRect, cx: int, cy: int) -> Option<TermCell> {
    let tx = area.x + cx;
    let ty = area.y + cy;
    if tx < area.right_edge() && ty < area.bottom_edge() {
        Some(
            TermCell {
                x: tx as u16,
                y: ty as u16,
                ch: '\u{2580}',
                fg: blended(img, cx, cy * 2),
                bg: Some(
                    if cy * 2 + 1 < img.height {
                        blended(img, cx, cy * 2 + 1)
                    } else {
                        CellColor::Black
                    },
                ),
            },
        )
    } else {
        None
    }
}

/// The writes for the first `n` cells in row-major order.
pub open spec fn halfblock_cells(img: Pixels, area: CellRect, n: int) -> Seq<TermCell>
    decreases n,
{
    if n <= 0 {
        Seq::empty()
    } else {
        let cols = halfblock_cols(img, area);
        let prev = halfblock_cells(img, area, n - 1);
        match halfblock_cell(img, area, (n - 1) % cols, (n - 1) / cols) {
            Some(c) => prev.push(c),
            None => prev,
        }
    }
}

/// Every half-block cell shows the two pixels under it: the cell in column
/// `cx` and row `cy` of the area takes its foreground from image pixel
/// (`cx`, `2 * cy`) and its background from pixel (`cx`, `2 * cy + 1`), each
/// channel scaled by the pixel's alpha (black below the image).
pub proof fn lemma_halfblock_cells_show_their_pixels(img: Pixels, area: CellRect, n: int)
    requires
        0 <= n,
        n > 0 ==> halfblock_cols(img, area) > 0,
    ensures
        forall|i: int|
            0 <= i < halfblock_cells(img, area, n).len() ==> {
                let c = #[trigger] halfblock_cells(img, area, n)[i];
                let px = c.x - area.x;
                let py = 2 * (c.y - area.y);
                &&& area.x <= c.x
                &&& area.y <= c.y
                &&& px < halfblock_cols(img, area)
                &&& c.ch == '\u{2580}'
                &&& c.fg == CellColor::Rgb(
                    (img.channel(px, py, 0) * img.channel(px, py, 3) / 255) as u8,
                    (img.channel(px, py, 1) * img.channel(px, py, 3) / 255) as u8,
                    (img.channel(px, py, 2) * img.channel(px, py, 3) / 255) as u8,
                )
                &&& c.bg == Some(
                    if py + 1 < img.height {
                        CellColor::Rgb(
                            (img.channel(px, py + 1, 0) * img.channel(px, py + 1, 3) / 255) as u8,
                            (img.channel(px, py + 1, 1) * img.channel(px, py + 1, 3) / 255) as u8,
                            (img.channel(px, py + 1, 2) * img.channel(px, py + 1, 3) / 255) as u8,
                        )
                    } else {
                        CellColor::Black
                    },
                )
            },
    decreases n,
{
    if n > 0 {
        lemma_halfblock_cells_show_their_pixels(img, area, n - 1);
        let cols = halfblock_cols(img, area);
        let cx = (n - 1) % cols;
        let cy = (n - 1) / cols;
        assert(0 <= cx < cols && 0 <= cy) by (nonlinear_arith)
            requires
                n > 0,
                cols > 0,
                cx == (n - 1) % cols,
                cy == (n - 1) / cols,
        ;
        let prev = halfblock_cells(img, area, n - 1);
        let cur = halfblock_cells(img, area, n);
        assert forall|i: int| 0 <= i < prev.len() implies cur[i] == prev[i] by {}
    }
}

/// Alpha-blend a pixel against black and return its color.
fn pixel_to_color(img: &Pixels, x: usize, y: usize) -> (r: CellColor)
    requires
        img.wf(),
        x < img.width,
        y < img.height,
    ensures
        r == blended(*img, x as int, y as int),
{
    let p = img.get_pixel(x as u32, y as u32);
    let af = p[3] as u16;
    assert(p@[0] * af / 255 <= 255 && p@[1] * af / 255 <= 255 && p@[2] * af / 255 <= 255)
        by (nonlinear_arith)
        requires
            af <= 255,
            p@[0] <= 255,
            p@[1] <= 255,
            p@[2] <= 255,
    ;
    assert(p@[0] * af <= 65025 && p@[1] * af <= 65025 && p@[2] * af <= 65025) by (nonlinear_arith)
        requires
            af <= 255,
            p@[0] <= 255,
            p@[1] <= 255,
            p@[2] <= 255,
    ;
    CellColor::Rgb(
        (p[0] as u16 * af / 255) as u8,
        (p[1] as u16 * af / 255) as u8,
        (p[2] as u16 * af / 255) as u8,
    )
}

/// Convert an RGBA pixel buffer to the half-block cells to write into `area`.
///
/// `img` should be sized (cols, rows*2) -- each terminal cell = 1px wide x 2px tall.
/// Top pixel -> fg color, bottom pixel -> bg color, character = upper half block.
pub fn render_halfblock(img: &Pixels, area: CellRect) -> (out: Vec<TermCell>)
    requires
        img.wf(),
        halfblock_fits(*img, area),
    ensures
        out@ == halfblock_cells(*img, area, halfblock_rows(*img, area) * halfblock_cols(*img, area)),
{
    let img_w = img.width as usize;
    let img_h = img.height as usize;

    let cols = img_w.min(area.width as usize);
    let rows = (img_h / 2).min(area.height as usize);
    assert(cols == halfblock_cols(*img, area) && rows == halfblock_rows(*img, area));

    let mut out: Vec<TermCell> = Vec::new();
    let mut cy: usize = 0;
    while cy < rows
        invariant
            cy <= rows,
            img.wf(),
            halfblock_fits(*img, area),
            img_w == img.width,
            img_h == img.height,
            cols == halfblock_cols(*img, area),
            rows == halfblock_rows(*img, area),
            out@ == halfblock_cells(*img, area, cy * cols),
        decreases rows - cy,
    {
        for cx in 0..cols
            invariant
                img.wf(),
                halfblock_fits(*img, area),
                img_w == img.width,
                img_h == img.height,
                cols == halfblock_cols(*img, area),
                rows == halfblock_rows(*img, area),
                cy < rows,
                out@ == halfblock_cells(*img, area, cy * cols + cx),
        {
            proof {
                lemma_fundamental_div_mod_converse(
                    cy * cols + cx,
                    cols as int,
                    cy as int,
                    cx as int,
                );
            }
            let top_y = cy * 2;
            let bot_y = cy * 2 + 1;

            let top_color = pixel_to_color(img, cx, top_y);
            let bot_color = if bot_y < img_h {
                pixel_to_color(img, cx, bot_y)
            } else {
                CellColor::Black
            };

            let tx = area.x + cx as u16;
            let ty = area.y + cy as u16;
            if tx < area.right() && ty < area.bottom() {
                // upper half block: fg = top half color, bg = bottom half color
                out.push(TermCell { x: tx, y: ty, ch: '\u{2580}', fg: top_color, bg: Some(bot_color) });
            }
        }
        assert(cy * cols + cols == (cy + 1) * cols) by (nonlinear_arith);
        cy = cy + 1;
    }
    out
}

} // verus!
