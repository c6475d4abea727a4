//! Braille-based terminal rendering.
//!
//! Each Unicode braille character (U+2800..U+28FF) encodes a 2x4 grid of dots,
//! giving us 2x horizontal and 4x vertical sub-cell resolution compared to
//! regular characters.  Parts are rendered into a small pixel buffer, which is
//! then converted to braille with per-cell foreground color.
use vstd::arithmetic::div_mod::lemma_fundamental_div_mod_converse;
use vstd::prelude::*;

use super::cells::{CellColor, CellRect, TermCell};
use super::pixels::Pixels;

verus! {

/// Braille dot positions within a 2x4 cell:
///
/// ```text
///  (0,0) (1,0)     dot 0  dot 3
///  (0,1) (1,1)     dot 1  dot 4
///  (0,2) (1,2)     dot 2  dot 5
///  (0,3) (1,3)     dot 6  dot 7
/// ```
///
/// The braille codepoint is U+2800 + bitmask where:
///   bit 0 = (0,0), bit 1 = (0,1), bit 2 = (0,2), bit 3 = (1,0),
///   bit 4 = (1,1), bit 5 = (1,2), bit 6 = (0,3), bit 7 = (1,3)
pub const DOT_MAP: [[u8; 2]; 4] = [
    [0, 3],  // row 0: left=bit0, right=bit3
    [1, 4],  // row 1: left=bit1, right=bit4
    [2, 5],  // row 2: left=bit2, right=bit5
    [6, 7],  // row 3: left=bit6, right=bit7
];

/// Threshold for considering a pixel "lit" (alpha-weighted luminance).
pub const LUMINANCE_THRESHOLD: u8 = 40;

/// The bit of the braille mask for the dot in row `dy`, column `dx` of a cell.
pub open spec fn dot_bit(dy: int, dx: int) -> u8 {
    if dy == 3 {
        if dx == 0 { 6 } else { 7 }
    } else {
        (dy + 3 * dx) as u8
    }
}

/// Luminance of a color, in 0..=255.
pub open spec fn luma(r: u8, g: u8, b: u8) -> int {
    (r * 77 + g * 150 + b * 29) / 256
}

/// Alpha-weighted luminance of a pixel.
pub open spec fn lit_level(r: u8, g: u8, b: u8, a: u8) -> int {
    luma(r, g, b) * a / 256
}

/// A color channel weighted by alpha.
pub open spec fn weighted(v: u8, a: u8) -> int {
    v * a / 255
}

/// Whether the pixel at (`px`, `py`) exists and is lit.
pub open spec fn pixel_lit(img: Pixels, px: int, py: int) -> bool {
    &&& px < img.width
    &&& py < img.height
    &&& lit_level(
        img.channel(px, py, 0),
        img.channel(px, py, 1),
        img.channel(px, py, 2),
        img.channel(px, py, 3),
    ) > LUMINANCE_THRESHOLD
}

/// Pixel position of dot `k` (row-major: k = 2 * row + column) of cell (`cx`, `cy`).
pub open spec fn dot_px(cx: int, k: int) -> int {
    cx * 2 + k % 2
}

pub open spec fn dot_py(cy: int, k: int) -> int {
    cy * 4 + k / 2
}

/// The braille mask of the first `k` dots of cell (`cx`, `cy`).
pub open spec fn cell_mask(img: Pixels, cx: int, cy: int, k: int) -> u8
    decreases k,
{
    if k <= 0 {
        0
    } else {
        let prev = cell_mask(img, cx, cy, k - 1);
        if pixel_lit(img, dot_px(cx, k - 1), dot_py(cy, k - 1)) {
            prev | (1u8 << dot_bit((k - 1) / 2, (k - 1) % 2))
        } else {
            prev
        }
    }
}

/// Sum of the alpha-weighted channel `c` over the lit ones of the first `k` dots.
pub open spec fn lit_sum(img: Pixels, cx: int, cy: int, c: int, k: int) -> int
    decreases k,
{
    if k <= 0 {
        0
    } else {
        let (px, py) = (dot_px(cx, k - 1), dot_py(cy, k - 1));
        lit_sum(img, cx, cy, c, k - 1) + if pixel_lit(img, px, py) {
            weighted(img.channel(px, py, c), img.channel(px, py, 3))
        } else {
            0
        }
    }
}

/// Number of lit dots among the first `k` dots.
pub open spec fn lit_count(img: Pixels, cx: int, cy: int, k: int) -> int
    decreases k,
{
    if k <= 0 {
        0
    } else {
        lit_count(img, cx, cy, k - 1) + if pixel_lit(img, dot_px(cx, k - 1), dot_py(cy, k - 1)) {
            1int
        } else {
            0
        }
    }
}

/// `sum / n` capped at 255.
pub open spec fn capped_mean(sum: int, n: int) -> u8 {
    (if sum / n > 255 { 255 } else { sum / n }) as u8
}

/// The mean of `n` summed colors, or the terminal default when there are none.
pub open spec fn mean_color(r: int, g: int, b: int, n: int) -> CellColor {
    if n > 0 {
        CellColor::Rgb(capped_mean(r, n), capped_mean(g, n), capped_mean(b, n))
    } else {
        CellColor::Reset
    }
}

/// Whether `mask` has the bit of dot `k` (row-major: row `k / 2`, column `k % 2`).
pub open spec fn mask_has_dot(mask: u8, k: int) -> bool {
    (mask >> dot_bit(k / 2, k % 2)) & 1u8 == 1u8
}

/// Eight dots, each added to the mask in turn, can each be read back from it.
proof fn lemma_dot_bits_read_back(
    b0: bool,
    b1: bool,
    b2: bool,
    b3: bool,
    b4: bool,
    b5: bool,
    b6: bool,
    b7: bool,
    m1: u8,
    m2: u8,
    m3: u8,
    m4: u8,
    m5: u8,
    m6: u8,
    m7: u8,
    m8: u8,
)
    by (bit_vector)
    requires
        m1 == (if b0 { 0u8 | 1u8 } else { 0u8 }),
        m2 == (if b1 { m1 | 8u8 } else { m1 }),
        m3 == (if b2 { m2 | 2u8 } else { m2 }),
        m4 == (if b3 { m3 | 16u8 } else { m3 }),
        m5 == (if b4 { m4 | 4u8 } else { m4 }),
        m6 == (if b5 { m5 | 32u8 } else { m5 }),
        m7 == (if b6 { m6 | 64u8 } else { m6 }),
        m8 == (if b7 { m7 | 128u8 } else { m7 }),
    ensures
        ((m8 >> 0u8) & 1u8 == 1u8) == b0,
        ((m8 >> 3u8) & 1u8 == 1u8) == b1,
        ((m8 >> 1u8) & 1u8 == 1u8) == b2,
        ((m8 >> 4u8) & 1u8 == 1u8) == b3,
        ((m8 >> 2u8) & 1u8 == 1u8) == b4,
        ((m8 >> 5u8) & 1u8 == 1u8) == b5,
        ((m8 >> 6u8) & 1u8 == 1u8) == b6,
        ((m8 >> 7u8) & 1u8 == 1u8) == b7,
{
}

/// The single-bit values of the eight dots.
proof fn lemma_dot_bit_values()
    ensures
        1u8 << dot_bit(0, 0) == 1u8,
        1u8 << dot_bit(0, 1) == 8u8,
        1u8 << dot_bit(1, 0) == 2u8,
        1u8 << dot_bit(1, 1) == 16u8,
        1u8 << dot_bit(2, 0) == 4u8,
        1u8 << dot_bit(2, 1) == 32u8,
        1u8 << dot_bit(3, 0) == 64u8,
        1u8 << dot_bit(3, 1) == 128u8,
{
    assert(1u8 << 0u8 == 1u8) by (bit_vector);
    assert(1u8 << 3u8 == 8u8) by (bit_vector);
    assert(1u8 << 1u8 == 2u8) by (bit_vector);
    assert(1u8 << 4u8 == 16u8) by (bit_vector);
    assert(1u8 << 2u8 == 4u8) by (bit_vector);
    assert(1u8 << 5u8 == 32u8) by (bit_vector);
    assert(1u8 << 6u8 == 64u8) by (bit_vector);
    assert(1u8 << 7u8 == 128u8) by (bit_vector);
}

/// Each dot of a braille cell has a bit of its own in the cell's character:
/// the bit is set exactly when the dot's pixel is lit.
pub proof fn lemma_braille_dots_have_own_bits(img: Pixels, cx: int, cy: int, k: int)
    requires
        0 <= k < 8,
    ensures
        mask_has_dot(cell_mask(img, cx, cy, 8), k) == pixel_lit(img, dot_px(cx, k), dot_py(cy, k)),
{
    reveal_with_fuel(cell_mask, 9);
    lemma_dot_bit_values();
    lemma_dot_bits_read_back(
        pixel_lit(img, dot_px(cx, 0), dot_py(cy, 0)),
        pixel_lit(img, dot_px(cx, 1), dot_py(cy, 1)),
        pixel_lit(img, dot_px(cx, 2), dot_py(cy, 2)),
        pixel_lit(img, dot_px(cx, 3), dot_py(cy, 3)),
        pixel_lit(img, dot_px(cx, 4), dot_py(cy, 4)),
        pixel_lit(img, dot_px(cx, 5), dot_py(cy, 5)),
        pixel_lit(img, dot_px(cx, 6), dot_py(cy, 6)),
        pixel_lit(img, dot_px(cx, 7), dot_py(cy, 7)),
        cell_mask(img, cx, cy, 1),
        cell_mask(img, cx, cy, 2),
        cell_mask(img, cx, cy, 3),
        cell_mask(img, cx, cy, 4),
        cell_mask(img, cx, cy, 5),
        cell_mask(img, cx, cy, 6),
        cell_mask(img, cx, cy, 7),
        cell_mask(img, cx, cy, 8),
    );
}

/// Number of cell columns that braille rendering of `img` fills in `area`.
pub open spec fn braille_cols(img: Pixels, area: CellRect) -> int {
    if img.width / 2 < area.width { (img.width / 2) as int } else { area.width as int }
}

/// Number of cell rows that braille rendering of `img` fills in `area`.
pub open spec fn braille_rows(img: Pixels, area: CellRect) -> int {
    if img.height / 4 < area.height { (img.height / 4) as int } else { area.height as int }
}

/// Every filled cell has coordinates that fit a `u16`.
pub open spec fn braille_fits(img: Pixels, area: CellRect) -> bool {
    braille_cols(img, area) > 0 && braille_rows(img, area) > 0 ==> {
        &&& area.x + braille_cols(img, area) - 1 <= u16::MAX
        &&& area.y + braille_rows(img, area) - 1 <= u16::MAX
    }
}

/// The write for cell (`cx`, `cy`), unless it falls outside the area's edges.
pub open spec fn braille_cell(img: Pixels, area: CellRect, cx: int, cy: int) -> Option<TermCell> {
    let tx = area.x + cx;
    let ty = area.y + cy;
    if tx < area.right_edge() && ty < area.bottom_edge() {
        Some(
            TermCell {
                x: tx as u16,
                y: ty as u16,
                ch: (0x2800 + cell_mask(img, cx, cy, 8)) as char,
                fg: mean_color(
                    lit_sum(img, cx, cy, 0, 8),
                    lit_sum(img, cx, cy, 1, 8),
                    lit_sum(img, cx, cy, 2, 8),
                    lit_count(img, cx, cy, 8),
                ),
                bg: None,
            },
        )
    } else {
        None
    }
}

/// The writes for the first `n` cells in row-major order.
pub open spec fn braille_cells(img: Pixels, area: CellRect, n: int) -> Seq<TermCell>
    decreases n,
{
    if n <= 0 {
        Seq::empty()
    } else {
        let cols = braille_cols(img, area);
        let prev = braille_cells(img, area, n - 1);
        match braille_cell(img, area, (n - 1) % cols, (n - 1) / cols) {
            Some(c) => prev.push(c),
            None => prev,
        }
    }
}

/// `char::from_u32`: std documents that it returns `Some(c)` with `c` the
/// character of code point `v` exactly when `v` is a Unicode scalar value.
#[verifier::external_body]
fn char_from_u32(v: u32) -> (r: Option<char>)
    ensures
        r is Some <==> (v <= 0xD7FF || (0xE000 <= v && v <= 0x10FFFF)),
        r matches Some(c) ==> c == v as char,
{
    char::from_u32(v)
}

/// Alpha-weighted luminance of a pixel.
fn pixel_level(p: [u8; 4]) -> (r: u8)
    ensures
        r == lit_level(p@[0], p@[1], p@[2], p@[3]),
{
    let s: u16 = p[0] as u16 * 77 + p[1] as u16 * 150 + p[2] as u16 * 29;
    assert(s >> 8u16 == s / 256) by (bit_vector);
    let lum = (s >> 8) as u8;
    assert(lum * p@[3] <= 255 * 255) by (nonlinear_arith)
        requires
            lum <= 255,
            p@[3] <= 255,
    ;
    let e: u16 = lum as u16 * p[3] as u16;
    assert(e >> 8u16 == e / 256) by (bit_vector);
    assert(e / 256 <= 255) by (nonlinear_arith)
        requires
            e == lum * p@[3],
            lum <= 255,
            p@[3] <= 255,
    ;
    (e >> 8) as u8
}

/// Adding a dot's bit to a mask with bit value `dot_bit`.
fn dot_mask_bit(dy: usize, dx: usize) -> (r: u8)
    requires
        dy < 4,
        dx < 2,
    ensures
        r == dot_bit(dy as int, dx as int),
        r < 8,
{
    DOT_MAP[dy][dx]
}

/// The braille mask of cell (`cx`, `cy`) and the summed colors and number of its lit dots.
fn cell_dots(img: &Pixels, cx: usize, cy: usize) -> (r: (u8, u32, u32, u32, u32))
    requires
        img.wf(),
        cx < img.width / 2,
        cy < img.height / 4,
    ensures
        r.0 == cell_mask(*img, cx as int, cy as int, 8),
        r.1 == lit_sum(*img, cx as int, cy as int, 0, 8),
        r.2 == lit_sum(*img, cx as int, cy as int, 1, 8),
        r.3 == lit_sum(*img, cx as int, cy as int, 2, 8),
        r.4 == lit_count(*img, cx as int, cy as int, 8),
        r.4 <= 8,
        r.1 <= 255 * r.4,
        r.2 <= 255 * r.4,
        r.3 <= 255 * r.4,
{
    let img_w = img.width as usize;
    let img_h = img.height as usize;
    let mut dots: u8 = 0;
    let mut r_sum: u32 = 0;
    let mut g_sum: u32 = 0;
    let mut b_sum: u32 = 0;
    let mut lit: u32 = 0;
    for dy in 0..4usize
        invariant
            img.wf(),
            img_w == img.width,
            img_h == img.height,
            cx < img.width / 2,
            cy < img.height / 4,
            dots == cell_mask(*img, cx as int, cy as int, 2 * dy),
            r_sum == lit_sum(*img, cx as int, cy as int, 0, 2 * dy),
            g_sum == lit_sum(*img, cx as int, cy as int, 1, 2 * dy),
            b_sum == lit_sum(*img, cx as int, cy as int, 2, 2 * dy),
            lit == lit_count(*img, cx as int, cy as int, 2 * dy),
            lit <= 2 * dy,
            r_sum <= 255 * lit,
            g_sum <= 255 * lit,
            b_sum <= 255 * lit,
    {
        for dx in 0..2usize
            invariant
                img.wf(),
                img_w == img.width,
                img_h == img.height,
                cx < img.width / 2,
                cy < img.height / 4,
                dy < 4,
                dots == cell_mask(*img, cx as int, cy as int, 2 * dy + dx),
                r_sum == lit_sum(*img, cx as int, cy as int, 0, 2 * dy + dx),
                g_sum == lit_sum(*img, cx as int, cy as int, 1, 2 * dy + dx),
                b_sum == lit_sum(*img, cx as int, cy as int, 2, 2 * dy + dx),
                lit == lit_count(*img, cx as int, cy as int, 2 * dy + dx),
                lit <= 2 * dy + dx,
                r_sum <= 255 * lit,
                g_sum <= 255 * lit,
                b_sum <= 255 * lit,
        {
            let ghost k = 2 * dy + dx;
            assert((k + 1 - 1) / 2 == dy && (k + 1 - 1) % 2 == dx);
            let px = cx * 2 + dx;
            let py = cy * 4 + dy;
            assert(px == dot_px(cx as int, k) && py == dot_py(cy as int, k));
            if px < img_w && py < img_h {
                let p = img.get_pixel(px as u32, py as u32);
                let effective = pixel_level(p);
                if effective > LUMINANCE_THRESHOLD {
                    let bit = dot_mask_bit(dy, dx);
                    dots = dots | (1u8 << bit);
                    // Accumulate color of lit dots for fg color
                    let af = p[3] as u32;
                    assert(p@[0] * af / 255 <= 255 && p@[1] * af / 255 <= 255 && p@[2] * af / 255
                        <= 255) by (nonlinear_arith)
                        requires
                            af <= 255,
                            p@[0] <= 255,
                            p@[1] <= 255,
                            p@[2] <= 255,
                    ;
                    r_sum = r_sum + p[0] as u32 * af / 255;
                    g_sum = g_sum + p[1] as u32 * af / 255;
                    b_sum = b_sum + p[2] as u32 * af / 255;
                    lit = lit + 1;
                }
            }
        }
    }
    (dots, r_sum, g_sum, b_sum, lit)
}

/// `sum / n` capped at 255.
fn mean_channel(sum: u32, n: u32) -> (r: u8)
    requires
        n > 0,
    ensures
        r == capped_mean(sum as int, n as int),
{
    (sum / n).min(255) as u8
}

/// Convert an RGBA pixel buffer to the braille cells to write into `area`.
///
/// `img` is rendered at braille resolution: each terminal cell = 2px wide x 4px tall.
/// So an image of size (cols*2, rows*4) maps exactly to (cols, rows) terminal cells.
/// Cells are produced row by row; a cell beyond the area's (saturated) edge is left out.
pub fn render_braille(img: &Pixels, area: CellRect) -> (out: Vec<TermCell>)
    requires
        img.wf(),
        braille_fits(*img, area),
    ensures
        out@ == braille_cells(*img, area, braille_rows(*img, area) * braille_cols(*img, area)),
{
    let img_w = img.width as usize;
    let img_h = img.height as usize;

    // How many terminal cells we can fill
    let cols = (img_w / 2).min(area.width as usize);
    let rows = (img_h / 4).min(area.height as usize);
    assert(cols == braille_cols(*img, area) && rows == braille_rows(*img, area));

    let mut out: Vec<TermCell> = Vec::new();
    let mut cy: usize = 0;
    while cy < rows
        invariant
            cy <= rows,
            img.wf(),
            braille_fits(*img, area),
            img_w == img.width,
            img_h == img.height,
            cols == braille_cols(*img, area),
            rows == braille_rows(*img, area),
            out@ == braille_cells(*img, area, cy * cols),
        decreases rows - cy,
    {
        for cx in 0..cols
            invariant
                img.wf(),
                braille_fits(*img, area),
                img_w == img.width,
                img_h == img.height,
                cols == braille_cols(*img, area),
                rows == braille_rows(*img, area),
                cy < rows,
                out@ == braille_cells(*img, area, cy * cols + cx),
        {
            proof {
                lemma_fundamental_div_mod_converse(
                    cy * cols + cx,
                    cols as int,
                    cy as int,
                    cx as int,
                );
            }
            let (dots, r_sum, g_sum, b_sum, lit_count) = cell_dots(img, cx, cy);

            let ch = char_from_u32(0x2800 + dots as u32).unwrap_or(' ');
            let fg = if lit_count > 0 {
                CellColor::Rgb(
                    mean_channel(r_sum, lit_count),
                    mean_channel(g_sum, lit_count),
                    mean_channel(b_sum, lit_count),
                )
            } else {
                CellColor::Reset
            };

            let tx = area.x + cx as u16;
            let ty = area.y + cy as u16;
            if tx < area.right() && ty < area.bottom() {
                out.push(TermCell { x: tx, y: ty, ch, fg, bg: None });
            }
        }
        assert(cy * cols + cols == (cy + 1) * cols) by (nonlinear_arith);
        cy = cy + 1;
    }
    out
}

/// Every braille cell shows the pixels under it: in the cell in column `cx`
/// and row `cy` of the area, dot `k` (row `k / 2`, column `k % 2`) is raised
/// exactly when image pixel (`2 * cx + k % 2`, `4 * cy + k / 2`) is lit.
pub proof fn lemma_braille_cells_show_their_pixels(img: Pixels, area: CellRect, n: int)
    requires
        0 <= n,
        n > 0 ==> braille_cols(img, area) > 0,
    ensures
        forall|i: int|
            0 <= i < braille_cells(img, area, n).len() ==> {
                let c = #[trigger] braille_cells(img, area, n)[i];
                let px = c.x - area.x;
                let py = c.y - area.y;
                &&& area.x <= c.x
                &&& area.y <= c.y
                &&& px < braille_cols(img, area)
                &&& 0x2800 <= c.ch as int <= 0x28FF
                &&& forall|k: int|
                    0 <= k < 8 ==> (#[trigger] mask_has_dot((c.ch as int - 0x2800) as u8, k) <==> pixel_lit(
                        img,
                        2 * px + k % 2,
                        4 * py + k / 2,
                    ))
            },
    decreases n,
{
    if n > 0 {
        lemma_braille_cells_show_their_pixels(img, area, n - 1);
        let cols = braille_cols(img, area);
        let cx = (n - 1) % cols;
        let cy = (n - 1) / cols;
        assert(0 <= cx < cols && 0 <= cy) by (nonlinear_arith)
            requires
                n > 0,
                cols > 0,
                cx == (n - 1) % cols,
                cy == (n - 1) / cols,
        ;
        let prev = braille_cells(img, area, n - 1);
        let cur = braille_cells(img, area, n);
        assert forall|i: int| 0 <= i < prev.len() implies cur[i] == prev[i] by {}
        let m = cell_mask(img, cx, cy, 8);
        assert forall|k: int| 0 <= k < 8 implies (mask_has_dot(m, k) <==> pixel_lit(
            img,
            2 * cx + k % 2,
            4 * cy + k / 2,
        )) by {
            lemma_braille_dots_have_own_bits(img, cx, cy, k);
        }
        assert(((0x2800 + m) as char) as int == 0x2800 + m);
    }
}

// ── Enhanced braille ─────────────────────────────────────────────

/// The value that sample (`px`, `py`) contributes: the alpha-weighted color
/// channel `c` for `c` in 0..3, the alpha-weighted luminance for `c == 3`.
pub open spec fn sample_value(img: Pixels, px: int, py: int, c: int) -> int {
    if c == 3 {
        lit_level(
            img.channel(px, py, 0),
            img.channel(px, py, 1),
            img.channel(px, py, 2),
            img.channel(px, py, 3),
        )
    } else {
        weighted(img.channel(px, py, c), img.channel(px, py, 3))
    }
}

/// Whether (`px`, `py`) is a pixel of `img`.
pub open spec fn in_image(img: Pixels, px: int, py: int) -> bool {
    0 <= px < img.width && 0 <= py < img.height
}

/// Sum of `sample_value(.., c)` over the first `j` pixels (row-major) of the
/// `ss` x `ss` block at (`x0`, `y0`) that lie in the image.
pub open spec fn block_sum(img: Pixels, x0: int, y0: int, ss: int, c: int, j: int) -> int
    decreases j,
{
    if j <= 0 {
        0
    } else {
        let (px, py) = (x0 + (j - 1) % ss, y0 + (j - 1) / ss);
        block_sum(img, x0, y0, ss, c, j - 1) + if in_image(img, px, py) {
            sample_value(img, px, py, c)
        } else {
            0
        }
    }
}

/// Number of the first `j` pixels of the block that lie in the image.
pub open spec fn block_count(img: Pixels, x0: int, y0: int, ss: int, j: int) -> int
    decreases j,
{
    if j <= 0 {
        0
    } else {
        block_count(img, x0, y0, ss, j - 1) + if in_image(
            img,
            x0 + (j - 1) % ss,
            y0 + (j - 1) / ss,
        ) {
            1int
        } else {
            0
        }
    }
}

/// Top-left source pixel of dot `k` of cell (`cx`, `cy`) when each dot covers `ss` x `ss` pixels.
pub open spec fn dot_x0(cx: int, k: int, ss: int) -> int {
    cx * 2 * ss + (k % 2) * ss
}

pub open spec fn dot_y0(cy: int, k: int, ss: int) -> int {
    cy * 4 * ss + (k / 2) * ss
}

/// Mean of `sample_value(.., c)` over the pixels of dot `k`.
pub open spec fn dot_mean(img: Pixels, cx: int, cy: int, ss: int, k: int, c: int) -> int {
    block_sum(img, dot_x0(cx, k, ss), dot_y0(cy, k, ss), ss, c, ss * ss) / block_count(
        img,
        dot_x0(cx, k, ss),
        dot_y0(cy, k, ss),
        ss,
        ss * ss,
    )
}

/// Whether dot `k` has pixels in the image.
pub open spec fn dot_sampled(img: Pixels, cx: int, cy: int, ss: int, k: int) -> bool {
    block_count(img, dot_x0(cx, k, ss), dot_y0(cy, k, ss), ss, ss * ss) > 0
}

/// Whether dot `k` is lit: its mean luminance exceeds the threshold.
pub open spec fn dot_lit(img: Pixels, cx: int, cy: int, ss: int, k: int) -> bool {
    dot_sampled(img, cx, cy, ss, k) && dot_mean(img, cx, cy, ss, k, 3) > LUMINANCE_THRESHOLD
}

/// Whether dot `k` has pixels but is not lit.
pub open spec fn dot_unlit(img: Pixels, cx: int, cy: int, ss: int, k: int) -> bool {
    dot_sampled(img, cx, cy, ss, k) && dot_mean(img, cx, cy, ss, k, 3) <= LUMINANCE_THRESHOLD
}

/// The braille mask of the first `k` dots.
pub open spec fn dots_mask(img: Pixels, cx: int, cy: int, ss: int, k: int) -> u8
    decreases k,
{
    if k <= 0 {
        0
    } else {
        let prev = dots_mask(img, cx, cy, ss, k - 1);
        if dot_lit(img, cx, cy, ss, k - 1) {
            prev | (1u8 << dot_bit((k - 1) / 2, (k - 1) % 2))
        } else {
            prev
        }
    }
}

/// In the enhanced renderer too, each dot has a bit of its own: set exactly
/// when the dot's sampled block is lit.
pub proof fn lemma_enhanced_dots_have_own_bits(img: Pixels, cx: int, cy: int, ss: int, k: int)
    requires
        0 <= k < 8,
    ensures
        mask_has_dot(dots_mask(img, cx, cy, ss, 8), k) == dot_lit(img, cx, cy, ss, k),
{
    reveal_with_fuel(dots_mask, 9);
    lemma_dot_bit_values();
    lemma_dot_bits_read_back(
        dot_lit(img, cx, cy, ss, 0),
        dot_lit(img, cx, cy, ss, 1),
        dot_lit(img, cx, cy, ss, 2),
        dot_lit(img, cx, cy, ss, 3),
        dot_lit(img, cx, cy, ss, 4),
        dot_lit(img, cx, cy, ss, 5),
        dot_lit(img, cx, cy, ss, 6),
        dot_lit(img, cx, cy, ss, 7),
        dots_mask(img, cx, cy, ss, 1),
        dots_mask(img, cx, cy, ss, 2),
        dots_mask(img, cx, cy, ss, 3),
        dots_mask(img, cx, cy, ss, 4),
        dots_mask(img, cx, cy, ss, 5),
        dots_mask(img, cx, cy, ss, 6),
        dots_mask(img, cx, cy, ss, 7),
        dots_mask(img, cx, cy, ss, 8),
    );
}

/// Sum of the mean color channel `c` over the lit (`lit == true`) or unlit
/// ones of the first `k` dots.
pub open spec fn dots_sum(img: Pixels, cx: int, cy: int, ss: int, lit: bool, c: int, k: int) -> int
    decreases k,
{
    if k <= 0 {
        0
    } else {
        let counted = if lit {
            dot_lit(img, cx, cy, ss, k - 1)
        } else {
            dot_unlit(img, cx, cy, ss, k - 1)
        };
        dots_sum(img, cx, cy, ss, lit, c, k - 1) + if counted {
            dot_mean(img, cx, cy, ss, k - 1, c)
        } else {
            0
        }
    }
}

/// Number of lit (`lit == true`) or unlit ones of the first `k` dots.
pub open spec fn dots_count(img: Pixels, cx: int, cy: int, ss: int, lit: bool, k: int) -> int
    decreases k,
{
    if k <= 0 {
        0
    } else {
        let counted = if lit {
            dot_lit(img, cx, cy, ss, k - 1)
        } else {
            dot_unlit(img, cx, cy, ss, k - 1)
        };
        dots_count(img, cx, cy, ss, lit, k - 1) + if counted {
            1int
        } else {
            0
        }
    }
}

/// With one pixel per dot, a dot of the enhanced renderer is its single pixel:
/// lit exactly when that pixel is, with the pixel's weighted channels as means.
proof fn lemma_single_pixel_dot(img: Pixels, cx: int, cy: int, k: int)
    requires
        0 <= cx,
        0 <= cy,
        0 <= k < 8,
    ensures
        dot_lit(img, cx, cy, 1, k) == pixel_lit(img, dot_px(cx, k), dot_py(cy, k)),
        dot_lit(img, cx, cy, 1, k) ==> forall|c: int|
            0 <= c < 3 ==> #[trigger] dot_mean(img, cx, cy, 1, k, c) == weighted(
                img.channel(dot_px(cx, k), dot_py(cy, k), c),
                img.channel(dot_px(cx, k), dot_py(cy, k), 3),
            ),
{
    reveal_with_fuel(block_sum, 2);
    reveal_with_fuel(block_count, 2);
    assert(dot_x0(cx, k, 1) == dot_px(cx, k));
    assert(dot_y0(cy, k, 1) == dot_py(cy, k));
    let x0 = dot_px(cx, k);
    let y0 = dot_py(cy, k);
    assert(0 <= x0 && 0 <= y0) by (nonlinear_arith)
        requires
            0 <= cx,
            0 <= cy,
            0 <= k < 8,
            x0 == cx * 2 + k % 2,
            y0 == cy * 4 + k / 2,
    ;
    assert(1int * 1int == 1);
    assert(block_count(img, x0, y0, 1, 1) == if in_image(img, x0, y0) { 1int } else { 0 });
    assert forall|c: int| 0 <= c <= 3 implies #[trigger] block_sum(img, x0, y0, 1, c, 1) == if in_image(img, x0, y0) {
        sample_value(img, x0, y0, c)
    } else {
        0
    } by {}
    if in_image(img, x0, y0) {
        assert forall|c: int| 0 <= c <= 3 implies #[trigger] dot_mean(img, cx, cy, 1, k, c)
            == sample_value(img, x0, y0, c) by {
            assert(block_sum(img, x0, y0, 1, c, 1) == sample_value(img, x0, y0, c));
        }
        assert(dot_mean(img, cx, cy, 1, k, 3) == sample_value(img, x0, y0, 3));
    }
}

/// With one pixel per dot, the first `k` dots give the enhanced renderer the
/// mask, lit sums and lit count that they give plain braille.
proof fn lemma_single_pixel_dots(img: Pixels, cx: int, cy: int, k: int)
    requires
        0 <= cx,
        0 <= cy,
        0 <= k <= 8,
    ensures
        dots_mask(img, cx, cy, 1, k) == cell_mask(img, cx, cy, k),
        dots_count(img, cx, cy, 1, true, k) == lit_count(img, cx, cy, k),
        forall|c: int|
            0 <= c < 3 ==> #[trigger] dots_sum(img, cx, cy, 1, true, c, k) == lit_sum(img, cx, cy, c, k),
    decreases k,
{
    if k > 0 {
        lemma_single_pixel_dots(img, cx, cy, k - 1);
        lemma_single_pixel_dot(img, cx, cy, k - 1);
        assert forall|c: int| 0 <= c < 3 implies #[trigger] dots_sum(img, cx, cy, 1, true, c, k)
            == lit_sum(img, cx, cy, c, k) by {
            assert(dots_sum(img, cx, cy, 1, true, c, k - 1) == lit_sum(img, cx, cy, c, k - 1));
        }
    }
}

/// With one pixel per dot, the enhanced renderer's first `n` cells without a
/// background color are plain braille's.
proof fn lemma_single_pixel_cells(img: Pixels, area: CellRect, n: int)
    requires
        0 <= n,
        n > 0 ==> braille_cols(img, area) > 0,
    ensures
        enhanced_cells(img, area, false, 1, n) == braille_cells(img, area, n),
    decreases n,
{
    if n > 0 {
        lemma_single_pixel_cells(img, area, n - 1);
        let cols = braille_cols(img, area);
        assert(enhanced_cols(img, area, 1) == cols);
        let cx = (n - 1) % cols;
        let cy = (n - 1) / cols;
        assert(0 <= cx && 0 <= cy) by (nonlinear_arith)
            requires
                n > 0,
                cols > 0,
                cx == (n - 1) % cols,
                cy == (n - 1) / cols,
        ;
        lemma_single_pixel_dots(img, cx, cy, 8);
        assert(enhanced_cell(img, area, false, 1, cx, cy) == braille_cell(img, area, cx, cy));
    }
}

/// With dual color and supersampling both off, the enhanced renderer writes
/// exactly the cells plain braille writes.
pub proof fn lemma_plain_enhanced_is_braille(img: Pixels, area: CellRect)
    ensures
        enhanced_cols(img, area, sample_side(false)) == braille_cols(img, area),
        enhanced_rows(img, area, sample_side(false)) == braille_rows(img, area),
        enhanced_cells(
            img,
            area,
            false,
            sample_side(false),
            braille_rows(img, area) * braille_cols(img, area),
        ) == braille_cells(img, area, braille_rows(img, area) * braille_cols(img, area)),
{
    let r = braille_rows(img, area);
    let c = braille_cols(img, area);
    assert(0 <= r * c) by (nonlinear_arith)
        requires
            0 <= r,
            0 <= c,
    ;
    assert(r * c > 0 ==> c > 0) by (nonlinear_arith)
        requires
            0 <= r,
            0 <= c,
    ;
    lemma_single_pixel_cells(img, area, r * c);
}

/// Pixels per dot side: 2 when supersampling, else 1.
pub open spec fn sample_side(supersample: bool) -> int {
    if supersample { 2 } else { 1 }
}

pub open spec fn enhanced_cols(img: Pixels, area: CellRect, ss: int) -> int {
    if img.width as int / (2 * ss) < area.width { img.width as int / (2 * ss) } else { area.width as int }
}

pub open spec fn enhanced_rows(img: Pixels, area: CellRect, ss: int) -> int {
    if img.height as int / (4 * ss) < area.height { img.height as int / (4 * ss) } else {
        area.height as int
    }
}

/// Every filled cell has coordinates that fit a `u16`.
pub open spec fn enhanced_fits(img: Pixels, area: CellRect, ss: int) -> bool {
    enhanced_cols(img, area, ss) > 0 && enhanced_rows(img, area, ss) > 0 ==> {
        &&& area.x + enhanced_cols(img, area, ss) - 1 <= u16::MAX
        &&& area.y + enhanced_rows(img, area, ss) - 1 <= u16::MAX
    }
}

/// The write for cell (`cx`, `cy`): lit dots give the character and the
/// foreground; with `dual_color` the unlit dots give the background.
pub open spec fn enhanced_cell(
    img: Pixels,
    area: CellRect,
    dual_color: bool,
    ss: int,
    cx: int,
    cy: int,
) -> Option<TermCell> {
    let tx = area.x + cx;
    let ty = area.y + cy;
    if tx < area.right_edge() && ty < area.bottom_edge() {
        let unlit = dots_count(img, cx, cy, ss, false, 8);
        Some(
            TermCell {
                x: tx as u16,
                y: ty as u16,
                ch: (0x2800 + dots_mask(img, cx, cy, ss, 8)) as char,
                fg: mean_color(
                    dots_sum(img, cx, cy, ss, true, 0, 8),
                    dots_sum(img, cx, cy, ss, true, 1, 8),
                    dots_sum(img, cx, cy, ss, true, 2, 8),
                    dots_count(img, cx, cy, ss, true, 8),
                ),
                bg: if dual_color {
                    Some(
                        mean_color(
                            dots_sum(img, cx, cy, ss, false, 0, 8),
                            dots_sum(img, cx, cy, ss, false, 1, 8),
                            dots_sum(img, cx, cy, ss, false, 2, 8),
                            unlit,
                        ),
                    )
                } else {
                    None
                },
            },
        )
    } else {
        None
    }
}

/// The writes for the first `n` cells in row-major order.
pub open spec fn enhanced_cells(
    img: Pixels,
    area: CellRect,
    dual_color: bool,
    ss: int,
    n: int,
) -> Seq<TermCell>
    decreases n,
{
    if n <= 0 {
        Seq::empty()
    } else {
        let cols = enhanced_cols(img, area, ss);
        let prev = enhanced_cells(img, area, dual_color, ss, n - 1);
        match enhanced_cell(img, area, dual_color, ss, (n - 1) % cols, (n - 1) / cols) {
            Some(c) => prev.push(c),
            None => prev,
        }
    }
}

/// Every enhanced braille cell shows the blocks under it: in the cell in
/// column `cx` and row `cy` of the area, dot `k` is raised exactly when the
/// `ss` x `ss` block of that cell's dot `k` is lit, and the background is set
/// exactly when dual color is on.
pub proof fn lemma_enhanced_cells_show_their_pixels(
    img: Pixels,
    area: CellRect,
    dual_color: bool,
    ss: int,
    n: int,
)
    requires
        0 <= n,
        1 <= ss,
        n > 0 ==> enhanced_cols(img, area, ss) > 0,
    ensures
        forall|i: int|
            0 <= i < enhanced_cells(img, area, dual_color, ss, n).len() ==> {
                let c = #[trigger] enhanced_cells(img, area, dual_color, ss, n)[i];
                let px = c.x - area.x;
                let py = c.y - area.y;
                &&& area.x <= c.x
                &&& area.y <= c.y
                &&& px < enhanced_cols(img, area, ss)
                &&& 0x2800 <= c.ch as int <= 0x28FF
                &&& (c.bg is Some <==> dual_color)
                &&& forall|k: int|
                    0 <= k < 8 ==> (#[trigger] mask_has_dot((c.ch as int - 0x2800) as u8, k)
                        <==> dot_lit(img, px, py, ss, k))
            },
    decreases n,
{
    if n > 0 {
        lemma_enhanced_cells_show_their_pixels(img, area, dual_color, ss, n - 1);
        let cols = enhanced_cols(img, area, ss);
        let cx = (n - 1) % cols;
        let cy = (n - 1) / cols;
        assert(0 <= cx < cols && 0 <= cy) by (nonlinear_arith)
            requires
                n > 0,
                cols > 0,
                cx == (n - 1) % cols,
                cy == (n - 1) / cols,
        ;
        let prev = enhanced_cells(img, area, dual_color, ss, n - 1);
        let cur = enhanced_cells(img, area, dual_color, ss, n);
        assert forall|i: int| 0 <= i < prev.len() implies cur[i] == prev[i] by {}
        let m = dots_mask(img, cx, cy, ss, 8);
        assert forall|k: int| 0 <= k < 8 implies (mask_has_dot(m, k) <==> dot_lit(img, cx, cy, ss, k)) by {
            lemma_enhanced_dots_have_own_bits(img, cx, cy, ss, k);
        }
        assert(((0x2800 + m) as char) as int == 0x2800 + m);
    }
}

/// Sums over the pixels of the `ss` x `ss` block at (`x0`, `y0`):
/// (luminance, red, green, blue, number of pixels).
fn sample_block(img: &Pixels, x0: usize, y0: usize, ss: usize) -> (r: (u32, u32, u32, u32, u32))
    requires
        img.wf(),
        1 <= ss <= 2,
        x0 + ss <= img.width,
        y0 + ss <= img.height,
    ensures
        r.0 == block_sum(*img, x0 as int, y0 as int, ss as int, 3, ss * ss),
        r.1 == block_sum(*img, x0 as int, y0 as int, ss as int, 0, ss * ss),
        r.2 == block_sum(*img, x0 as int, y0 as int, ss as int, 1, ss * ss),
        r.3 == block_sum(*img, x0 as int, y0 as int, ss as int, 2, ss * ss),
        r.4 == block_count(*img, x0 as int, y0 as int, ss as int, ss * ss),
        r.0 <= 255 * r.4,
        r.1 <= 255 * r.4,
        r.2 <= 255 * r.4,
        r.3 <= 255 * r.4,
        r.4 <= ss * ss,
{
    let img_w = img.width as usize;
    let img_h = img.height as usize;
    let mut lum_acc: u32 = 0;
    let mut r_acc: u32 = 0;
    let mut g_acc: u32 = 0;
    let mut b_acc: u32 = 0;
    let mut samples: u32 = 0;
    let mut sy: usize = 0;
    while sy < ss
        invariant
            sy <= ss,
            img.wf(),
            1 <= ss <= 2,
            x0 + ss <= img.width,
            y0 + ss <= img.height,
            img_w == img.width,
            img_h == img.height,
            lum_acc == block_sum(*img, x0 as int, y0 as int, ss as int, 3, sy * ss),
            r_acc == block_sum(*img, x0 as int, y0 as int, ss as int, 0, sy * ss),
            g_acc == block_sum(*img, x0 as int, y0 as int, ss as int, 1, sy * ss),
            b_acc == block_sum(*img, x0 as int, y0 as int, ss as int, 2, sy * ss),
            samples == block_count(*img, x0 as int, y0 as int, ss as int, sy * ss),
            samples <= sy * ss,
            lum_acc <= 255 * samples,
            r_acc <= 255 * samples,
            g_acc <= 255 * samples,
            b_acc <= 255 * samples,
        decreases ss - sy,
    {
        for sx in 0..ss
            invariant
                img.wf(),
                1 <= ss <= 2,
                sy < ss,
                x0 + ss <= img.width,
                y0 + ss <= img.height,
                img_w == img.width,
                img_h == img.height,
                lum_acc == block_sum(*img, x0 as int, y0 as int, ss as int, 3, sy * ss + sx),
                r_acc == block_sum(*img, x0 as int, y0 as int, ss as int, 0, sy * ss + sx),
                g_acc == block_sum(*img, x0 as int, y0 as int, ss as int, 1, sy * ss + sx),
                b_acc == block_sum(*img, x0 as int, y0 as int, ss as int, 2, sy * ss + sx),
                samples == block_count(*img, x0 as int, y0 as int, ss as int, sy * ss + sx),
                samples <= sy * ss + sx,
                lum_acc <= 255 * samples,
                r_acc <= 255 * samples,
                g_acc <= 255 * samples,
                b_acc <= 255 * samples,
        {
            proof {
                lemma_fundamental_div_mod_converse(
                    sy * ss + sx,
                    ss as int,
                    sy as int,
                    sx as int,
                );
                assert(sy * ss + sx + 1 <= 4) by (nonlinear_arith)
                    requires
                        sy < ss,
                        sx < ss,
                        ss <= 2,
                ;
            }
            let px = x0 + sx;
            let py = y0 + sy;
            if px < img_w && py < img_h {
                let p = img.get_pixel(px as u32, py as u32);
                let effective = pixel_level(p);
                lum_acc = lum_acc + effective as u32;
                let af = p[3] as u32;
                assert(p@[0] * af / 255 <= 255 && p@[1] * af / 255 <= 255 && p@[2] * af / 255
                    <= 255) by (nonlinear_arith)
                    requires
                        af <= 255,
                        p@[0] <= 255,
                        p@[1] <= 255,
                        p@[2] <= 255,
                ;
                r_acc = r_acc + p[0] as u32 * af / 255;
                g_acc = g_acc + p[1] as u32 * af / 255;
                b_acc = b_acc + p[2] as u32 * af / 255;
                samples = samples + 1;
            }
        }
        assert(sy * ss + ss == (sy + 1) * ss) by (nonlinear_arith);
        sy = sy + 1;
    }
    (lum_acc, r_acc, g_acc, b_acc, samples)
}

/// The dots of a cell are inside the image when the cell is one of the filled ones.
proof fn lemma_dot_block_in_image(cx: int, cy: int, ss: int, dy: int, dx: int, w: int, h: int)
    requires
        1 <= ss <= 2,
        0 <= cx < w / (2 * ss),
        0 <= cy < h / (4 * ss),
        0 <= dy < 4,
        0 <= dx < 2,
        0 <= w,
        0 <= h,
    ensures
        0 <= cx * 2 * ss + dx * ss,
        cx * 2 * ss + dx * ss + ss <= w,
        0 <= cy * 4 * ss + dy * ss,
        cy * 4 * ss + dy * ss + ss <= h,
{
    assert((cx + 1) * (2 * ss) <= w) by (nonlinear_arith)
        requires
            0 <= cx < w / (2 * ss),
            1 <= ss,
            0 <= w,
    ;
    assert((cy + 1) * (4 * ss) <= h) by (nonlinear_arith)
        requires
            0 <= cy < h / (4 * ss),
            1 <= ss,
            0 <= h,
    ;
    assert(cx * 2 * ss + dx * ss + ss <= (cx + 1) * (2 * ss)) by (nonlinear_arith)
        requires
            0 <= dx < 2,
            1 <= ss,
    ;
    assert(cy * 4 * ss + dy * ss + ss <= (cy + 1) * (4 * ss)) by (nonlinear_arith)
        requires
            0 <= dy < 4,
            1 <= ss,
    ;
    assert(0 <= cx * 2 * ss + dx * ss) by (nonlinear_arith)
        requires
            0 <= cx,
            0 <= dx,
            1 <= ss,
    ;
    assert(0 <= cy * 4 * ss + dy * ss) by (nonlinear_arith)
        requires
            0 <= cy,
            0 <= dy,
            1 <= ss,
    ;
}

/// The braille mask of cell (`cx`, `cy`), and the summed mean colors and numbers
/// of its lit and of its unlit dots, with `ss` x `ss` pixels per dot.
fn cell_dots_sampled(img: &Pixels, cx: usize, cy: usize, ss: usize) -> (r: (
    u8,
    [u32; 3],
    u32,
    [u32; 3],
    u32,
))
    requires
        img.wf(),
        1 <= ss <= 2,
        cx < img.width as int / (2 * ss),
        cy < img.height as int / (4 * ss),
    ensures
        r.0 == dots_mask(*img, cx as int, cy as int, ss as int, 8),
        r.1@[0] == dots_sum(*img, cx as int, cy as int, ss as int, true, 0, 8),
        r.1@[1] == dots_sum(*img, cx as int, cy as int, ss as int, true, 1, 8),
        r.1@[2] == dots_sum(*img, cx as int, cy as int, ss as int, true, 2, 8),
        r.2 == dots_count(*img, cx as int, cy as int, ss as int, true, 8),
        r.3@[0] == dots_sum(*img, cx as int, cy as int, ss as int, false, 0, 8),
        r.3@[1] == dots_sum(*img, cx as int, cy as int, ss as int, false, 1, 8),
        r.3@[2] == dots_sum(*img, cx as int, cy as int, ss as int, false, 2, 8),
        r.4 == dots_count(*img, cx as int, cy as int, ss as int, false, 8),
{
    // Lit pixel accumulators
    let mut lr_sum: u32 = 0;
    let mut lg_sum: u32 = 0;
    let mut lb_sum: u32 = 0;
    let mut lit_count: u32 = 0;
    // Unlit pixel accumulators (for dual-color bg)
    let mut ur_sum: u32 = 0;
    let mut ug_sum: u32 = 0;
    let mut ub_sum: u32 = 0;
    let mut unlit_count: u32 = 0;
    let mut dots: u8 = 0;
    let ghost (icx, icy, iss) = (cx as int, cy as int, ss as int);

    for dy in 0..4usize
        invariant
            img.wf(),
            1 <= ss <= 2,
            cx < img.width as int / (2 * ss),
            cy < img.height as int / (4 * ss),
            icx == cx,
            icy == cy,
            iss == ss,
            dots == dots_mask(*img, icx, icy, iss, 2 * dy),
            lr_sum == dots_sum(*img, icx, icy, iss, true, 0, 2 * dy),
            lg_sum == dots_sum(*img, icx, icy, iss, true, 1, 2 * dy),
            lb_sum == dots_sum(*img, icx, icy, iss, true, 2, 2 * dy),
            lit_count == dots_count(*img, icx, icy, iss, true, 2 * dy),
            ur_sum == dots_sum(*img, icx, icy, iss, false, 0, 2 * dy),
            ug_sum == dots_sum(*img, icx, icy, iss, false, 1, 2 * dy),
            ub_sum == dots_sum(*img, icx, icy, iss, false, 2, 2 * dy),
            unlit_count == dots_count(*img, icx, icy, iss, false, 2 * dy),
            lr_sum <= 510 * dy,
            lg_sum <= 510 * dy,
            lb_sum <= 510 * dy,
            ur_sum <= 510 * dy,
            ug_sum <= 510 * dy,
            ub_sum <= 510 * dy,
            lit_count <= 2 * dy,
            unlit_count <= 2 * dy,
    {
        for dx in 0..2usize
            invariant
                img.wf(),
                1 <= ss <= 2,
                cx < img.width as int / (2 * ss),
                cy < img.height as int / (4 * ss),
                icx == cx,
                icy == cy,
                iss == ss,
                dy < 4,
                dots == dots_mask(*img, icx, icy, iss, 2 * dy + dx),
                lr_sum == dots_sum(*img, icx, icy, iss, true, 0, 2 * dy + dx),
                lg_sum == dots_sum(*img, icx, icy, iss, true, 1, 2 * dy + dx),
                lb_sum == dots_sum(*img, icx, icy, iss, true, 2, 2 * dy + dx),
                lit_count == dots_count(*img, icx, icy, iss, true, 2 * dy + dx),
                ur_sum == dots_sum(*img, icx, icy, iss, false, 0, 2 * dy + dx),
                ug_sum == dots_sum(*img, icx, icy, iss, false, 1, 2 * dy + dx),
                ub_sum == dots_sum(*img, icx, icy, iss, false, 2, 2 * dy + dx),
                unlit_count == dots_count(*img, icx, icy, iss, false, 2 * dy + dx),
                lr_sum <= 510 * dy + 255 * dx,
                lg_sum <= 510 * dy + 255 * dx,
                lb_sum <= 510 * dy + 255 * dx,
                ur_sum <= 510 * dy + 255 * dx,
                ug_sum <= 510 * dy + 255 * dx,
                ub_sum <= 510 * dy + 255 * dx,
                lit_count <= 2 * dy + dx,
                unlit_count <= 2 * dy + dx,
        {
            let ghost k = 2 * dy + dx;
            assert((k + 1 - 1) / 2 == dy && (k + 1 - 1) % 2 == dx);
            proof {
                lemma_dot_block_in_image(
                    icx,
                    icy,
                    iss,
                    dy as int,
                    dx as int,
                    img.width as int,
                    img.height as int,
                );
            }
            // Sample the source region for this dot
            let src_x = cx * 2 * ss + dx * ss;
            let src_y = cy * 4 * ss + dy * ss;
            assert(src_x == dot_x0(icx, k, iss) && src_y == dot_y0(icy, k, iss));

            let (lum_acc, r_acc, g_acc, b_acc, samples) = sample_block(img, src_x, src_y, ss);

            if samples != 0 {
                let avg_lum = lum_acc / samples;
                let avg_r = r_acc / samples;
                let avg_g = g_acc / samples;
                let avg_b = b_acc / samples;
                assert(avg_r <= 255 && avg_g <= 255 && avg_b <= 255) by (nonlinear_arith)
                    requires
                        avg_r == r_acc / samples,
                        avg_g == g_acc / samples,
                        avg_b == b_acc / samples,
                        r_acc <= 255 * samples,
                        g_acc <= 255 * samples,
                        b_acc <= 255 * samples,
                        samples > 0,
                ;

                if avg_lum > LUMINANCE_THRESHOLD as u32 {
                    let bit = dot_mask_bit(dy, dx);
                    dots = dots | (1u8 << bit);
                    lr_sum = lr_sum + avg_r;
                    lg_sum = lg_sum + avg_g;
                    lb_sum = lb_sum + avg_b;
                    lit_count = lit_count + 1;
                } else {
                    ur_sum = ur_sum + avg_r;
                    ug_sum = ug_sum + avg_g;
                    ub_sum = ub_sum + avg_b;
                    unlit_count = unlit_count + 1;
                }
            }
        }
    }
    (dots, [lr_sum, lg_sum, lb_sum], lit_count, [ur_sum, ug_sum, ub_sum], unlit_count)
}

/// Enhanced braille renderer with dual-color and supersample support.
///
/// - `dual_color`: set bg color per cell to the average of *unlit* pixels,
///   giving a second color channel.
/// - `supersample`: when true, expects image at 2x braille resolution
///   (cols*4, rows*8). Each braille dot averages a 2x2 block of source pixels
///   for smoother edges.
pub fn render_braille_enhanced(
    img: &Pixels,
    area: CellRect,
    dual_color: bool,
    supersample: bool,
) -> (out: Vec<TermCell>)
    requires
        img.wf(),
        enhanced_fits(*img, area, sample_side(supersample)),
    ensures
        out@ == enhanced_cells(
            *img,
            area,
            dual_color,
            sample_side(supersample),
            enhanced_rows(*img, area, sample_side(supersample)) * enhanced_cols(
                *img,
                area,
                sample_side(supersample),
            ),
        ),
{
    let img_w = img.width as usize;
    let img_h = img.height as usize;

    // When supersampling, each braille dot = 2x2 source pixels
    let ss: usize = if supersample { 2 } else { 1 };
    let ghost iss = sample_side(supersample);

    let cols = (img_w / (2 * ss)).min(area.width as usize);
    let rows = (img_h / (4 * ss)).min(area.height as usize);
    assert(cols == enhanced_cols(*img, area, iss) && rows == enhanced_rows(*img, area, iss));

    let mut out: Vec<TermCell> = Vec::new();
    let mut cy: usize = 0;
    while cy < rows
        invariant
            cy <= rows,
            img.wf(),
            enhanced_fits(*img, area, iss),
            iss == ss,
            1 <= ss <= 2,
            img_w == img.width,
            img_h == img.height,
            cols == enhanced_cols(*img, area, iss),
            rows == enhanced_rows(*img, area, iss),
            out@ == enhanced_cells(*img, area, dual_color, iss, cy * cols),
        decreases rows - cy,
    {
        for cx in 0..cols
            invariant
                img.wf(),
                enhanced_fits(*img, area, iss),
                iss == ss,
                1 <= ss <= 2,
                img_w == img.width,
                img_h == img.height,
                cols == enhanced_cols(*img, area, iss),
                rows == enhanced_rows(*img, area, iss),
                cy < rows,
                out@ == enhanced_cells(*img, area, dual_color, iss, cy * cols + cx),
        {
            proof {
                lemma_fundamental_div_mod_converse(
                    cy * cols + cx,
                    cols as int,
                    cy as int,
                    cx as int,
                );
            }
            let (dots, lit_rgb, lit_count, unlit_rgb, unlit_count) = cell_dots_sampled(
                img,
                cx,
                cy,
                ss,
            );

            let ch = char_from_u32(0x2800 + dots as u32).unwrap_or(' ');
            let fg = if lit_count > 0 {
                CellColor::Rgb(
                    mean_channel(lit_rgb[0], lit_count),
                    mean_channel(lit_rgb[1], lit_count),
                    mean_channel(lit_rgb[2], lit_count),
                )
            } else {
                CellColor::Reset
            };

            let bg = if dual_color && unlit_count > 0 {
                CellColor::Rgb(
                    mean_channel(unlit_rgb[0], unlit_count),
                    mean_channel(unlit_rgb[1], unlit_count),
                    mean_channel(unlit_rgb[2], unlit_count),
                )
            } else {
                CellColor::Reset
            };

            let tx = area.x + cx as u16;
            let ty = area.y + cy as u16;
            if tx < area.right() && ty < area.bottom() {
                let cell_bg = if dual_color { Some(bg) } else { None };
                out.push(TermCell { x: tx, y: ty, ch, fg, bg: cell_bg });
            }
        }
        assert(cy * cols + cols == (cy + 1) * cols) by (nonlinear_arith);
        cy = cy + 1;
    }
    out
}

} // verus!
