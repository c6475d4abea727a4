//! Rendering choices and the text-mode renderers.
pub mod braille;
pub mod cells;
pub mod halfblock;
pub mod pixels;
pub mod text_chars;

use vstd::prelude::*;

use crate::text::{contains_text, eq_ignoring_ascii_case, text_contains, text_eq, text_eq_ignoring_ascii_case};

use self::braille::{
    braille_cells, braille_cols, braille_fits, braille_rows, enhanced_cells, enhanced_cols,
    enhanced_fits, enhanced_rows, render_braille, render_braille_enhanced, sample_side,
};
use self::cells::{CellRect, TermCell};
use self::halfblock::{halfblock_cells, halfblock_cols, halfblock_fits, halfblock_rows, render_halfblock};
use self::pixels::{braille_size_for_area_spec, Pixels};

verus! {

/// Rendering mode selection
#[derive(Debug, Clone, Copy, PartialEq, Eq, Structural)]
pub enum RenderMode {
    Pixel,
    Text,
}

/// The rendering mode that the terminal's environment calls for: the
/// `TIM2_RENDER` override (`pixel` or `text`, in any ASCII case) first, then
/// the terminals known to show pixel graphics (a kitty window, WezTerm,
/// Ghostty, iTerm2, and a `TERM` naming kitty or foot), text otherwise.
pub open spec fn mode_for_env(
    render_override: Option<Seq<char>>,
    kitty_window: bool,
    term_program: Option<Seq<char>>,
    term: Option<Seq<char>>,
) -> RenderMode {
    if render_override is Some && eq_ignoring_ascii_case(render_override->0, "pixel"@) {
        RenderMode::Pixel
    } else if render_override is Some && eq_ignoring_ascii_case(render_override->0, "text"@) {
        RenderMode::Text
    } else if kitty_window {
        RenderMode::Pixel
    } else if term_program is Some && (term_program->0 == "WezTerm"@ || term_program->0
        == "ghostty"@ || term_program->0 == "iTerm.app"@) {
        RenderMode::Pixel
    } else if term is Some && (text_contains(term->0, "kitty"@) || text_contains(
        term->0,
        "foot"@,
    )) {
        RenderMode::Pixel
    } else {
        RenderMode::Text
    }
}

/// Choose the rendering mode from the environment: the values of
/// `TIM2_RENDER`, `TERM_PROGRAM` and `TERM` where set, and whether
/// `KITTY_WINDOW_ID` is set.
pub fn detect_mode(
    render_override: Option<&str>,
    kitty_window: bool,
    term_program: Option<&str>,
    term: Option<&str>,
) -> (r: RenderMode)
    ensures
        r == mode_for_env(
            match render_override {
                Some(s) => Some(s@),
                None => None,
            },
            kitty_window,
            match term_program {
                Some(s) => Some(s@),
                None => None,
            },
            match term {
                Some(s) => Some(s@),
                None => None,
            },
        ),
{
    if let Some(mode) = render_override {
        if text_eq_ignoring_ascii_case(mode, "pixel") {
            return RenderMode::Pixel;
        }
        if text_eq_ignoring_ascii_case(mode, "text") {
            return RenderMode::Text;
        }
    }
    if kitty_window {
        return RenderMode::Pixel;
    }
    if let Some(p) = term_program {
        if text_eq(p, "WezTerm") || text_eq(p, "ghostty") || text_eq(p, "iTerm.app") {
            return RenderMode::Pixel;
        }
    }
    if let Some(t) = term {
        if contains_text(t, "kitty") || contains_text(t, "foot") {
            return RenderMode::Pixel;
        }
    }
    RenderMode::Text
}

/// Settings for text-mode rendering (braille / halfblock).
#[derive(Debug, Clone, Copy, PartialEq, Eq, Structural)]
pub struct TextSettings {
    /// Use half-block characters instead of braille (mutually exclusive).
    pub halfblock: bool,
    /// Use background color per cell (second color channel for braille).
    pub dual_color: bool,
    /// Render source image at 2x braille resolution and downsample per dot.
    pub supersample: bool,
}

impl Default for TextSettings {
    fn default() -> (r: Self)
        ensures
            r == (TextSettings { halfblock: false, dual_color: false, supersample: false }),
    {
        Self { halfblock: false, dual_color: false, supersample: false }
    }
}

impl TextSettings {
    /// `n` cells of `per` pixels each, but never less than one cell's worth.
    pub open spec fn at_least_one_cell(n: int, per: int) -> int {
        if n * per >= per { n * per } else { per }
    }

    /// The image size for `cols` x `rows` cells fits a `u32`.
    pub open spec fn image_size_fits(self, cols: u32, rows: u32) -> bool {
        if self.halfblock {
            rows * 2 <= u32::MAX
        } else if self.supersample {
            cols * 4 <= u32::MAX && rows * 8 <= u32::MAX
        } else {
            cols * 2 <= u32::MAX && rows * 4 <= u32::MAX
        }
    }

    /// Pixel dimensions for `cols` x `rows` cells: the pixels those cells show,
    /// and never less than one cell's worth.
    pub open spec fn image_dims(self, cols: u32, rows: u32) -> (u32, u32) {
        if self.halfblock {
            (Self::at_least_one_cell(cols as int, 1) as u32, Self::at_least_one_cell(rows as int, 2) as u32)
        } else if self.supersample {
            (Self::at_least_one_cell(cols as int, 4) as u32, Self::at_least_one_cell(rows as int, 8) as u32)
        } else {
            (Self::at_least_one_cell(cols as int, 2) as u32, Self::at_least_one_cell(rows as int, 4) as u32)
        }
    }

    /// Pixel dimensions needed for the given terminal area.
    pub fn image_size(&self, cols: u32, rows: u32) -> (r: (u32, u32))
        requires
            self.image_size_fits(cols, rows),
        ensures
            r == self.image_dims(cols, rows),
    {
        if self.halfblock {
            // 1px per col, 2px per row
            (cols.max(1), (rows * 2).max(2))
        } else if self.supersample {
            // 2x braille resolution: 4px per col, 8px per row
            ((cols * 4).max(4), (rows * 8).max(8))
        } else {
            // Normal braille: 2px per col, 4px per row
            ((cols * 2).max(2), (rows * 4).max(4))
        }
    }

    /// The name shown for these settings.
    pub open spec fn label_text(self) -> Seq<char> {
        if self.halfblock {
            "HalfBlock"@
        } else {
            "Braille"@ + (if self.dual_color { "+DualColor"@ } else { Seq::empty() }) + (
            if self.supersample {
                "+SS"@
            } else {
                Seq::empty()
            })
        }
    }

    pub fn label(&self) -> (r: String)
        ensures
            r@ == self.label_text(),
    {
        if self.halfblock {
            return String::from_str("HalfBlock");
        } else {
            let mut label = String::from_str("Braille");
            if self.dual_color {
                label.append("+DualColor");
            }
            if self.supersample {
                label.append("+SS");
            }
            label
        }
    }

    /// The word shown for a switch being on or off.
    pub open spec fn on_off(on: bool) -> Seq<char> {
        if on { "ON"@ } else { "OFF"@ }
    }

    /// Switch between half-block and braille rendering; returns the status
    /// message that names the renderer now in use.
    pub fn toggle_halfblock(&mut self) -> (msg: String)
        ensures
            *final(self) == (TextSettings { halfblock: !old(self).halfblock, ..*old(self) }),
            msg@ == "Renderer: "@ + final(self).label_text(),
    {
        self.halfblock = !self.halfblock;
        let mut msg = String::from_str("Renderer: ");
        let label = self.label();
        msg.append(label.as_str());
        msg
    }

    /// Switch the per-cell background color on or off; returns the status message.
    pub fn toggle_dual_color(&mut self) -> (msg: String)
        ensures
            *final(self) == (TextSettings { dual_color: !old(self).dual_color, ..*old(self) }),
            msg@ == "Dual color: "@ + Self::on_off(final(self).dual_color),
    {
        self.dual_color = !self.dual_color;
        let mut msg = String::from_str("Dual color: ");
        msg.append(if self.dual_color { "ON" } else { "OFF" });
        msg
    }

    /// Switch supersampling on or off; returns the status message.
    pub fn toggle_supersample(&mut self) -> (msg: String)
        ensures
            *final(self) == (TextSettings { supersample: !old(self).supersample, ..*old(self) }),
            msg@ == "Supersample: "@ + Self::on_off(final(self).supersample),
    {
        self.supersample = !self.supersample;
        let mut msg = String::from_str("Supersample: ");
        msg.append(if self.supersample { "ON" } else { "OFF" });
        msg
    }

    /// The cells of `img` fit the coordinates of `area` in the renderer the
    /// settings choose.
    pub open spec fn renders_within(self, img: Pixels, area: CellRect) -> bool {
        if self.halfblock {
            halfblock_fits(img, area)
        } else if self.dual_color || self.supersample {
            enhanced_fits(img, area, sample_side(self.supersample))
        } else {
            braille_fits(img, area)
        }
    }

    /// The cell writes of the renderer the settings choose.
    pub open spec fn text_cells(self, img: Pixels, area: CellRect) -> Seq<TermCell> {
        if self.halfblock {
            halfblock_cells(img, area, halfblock_rows(img, area) * halfblock_cols(img, area))
        } else if self.dual_color || self.supersample {
            let ss = sample_side(self.supersample);
            enhanced_cells(
                img,
                area,
                self.dual_color,
                ss,
                enhanced_rows(img, area, ss) * enhanced_cols(img, area, ss),
            )
        } else {
            braille_cells(img, area, braille_rows(img, area) * braille_cols(img, area))
        }
    }

    /// Render `img` into `area` with the renderer the settings choose:
    /// half-block, enhanced braille when dual color or supersampling is on,
    /// plain braille otherwise.
    pub fn render_text(&self, img: &Pixels, area: CellRect) -> (out: Vec<TermCell>)
        requires
            img.wf(),
            self.renders_within(*img, area),
        ensures
            out@ == self.text_cells(*img, area),
    {
        if self.halfblock {
            render_halfblock(img, area)
        } else if self.dual_color || self.supersample {
            render_braille_enhanced(img, area, self.dual_color, self.supersample)
        } else {
            render_braille(img, area)
        }
    }
}

/// An image of the size that `image_size` gives for an area is what the
/// renderer the settings choose needs to fill that whole area: every column
/// and every row of it, and no more.
pub proof fn lemma_image_size_fills_area(settings: TextSettings, img: Pixels, area: CellRect)
    requires
        (img.width, img.height) == settings.image_dims(area.width as u32, area.height as u32),
    ensures
        settings.halfblock ==> halfblock_cols(img, area) == area.width && halfblock_rows(img, area)
            == area.height,
        !settings.halfblock && (settings.dual_color || settings.supersample) ==> enhanced_cols(
            img,
            area,
            sample_side(settings.supersample),
        ) == area.width && enhanced_rows(img, area, sample_side(settings.supersample))
            == area.height,
        !settings.halfblock && !settings.dual_color && !settings.supersample ==> braille_cols(
            img,
            area,
        ) == area.width && braille_rows(img, area) == area.height,
{
    if !settings.halfblock {
        if settings.supersample {
            assert(area.width >= 1 ==> img.width as int / 4 == area.width);
            assert(area.height >= 1 ==> img.height as int / 8 == area.height);
        } else {
            assert(area.width >= 1 ==> img.width as int / 2 == area.width);
            assert(area.height >= 1 ==> img.height as int / 4 == area.height);
        }
    }
}

/// An image of the size `braille_size_for_area` gives fills the whole area
/// with braille cells.
pub proof fn lemma_braille_size_fills_area(img: Pixels, area: CellRect)
    requires
        (img.width, img.height) == braille_size_for_area_spec(area),
    ensures
        braille_cols(img, area) == area.width,
        braille_rows(img, area) == area.height,
{
}

} // verus!
