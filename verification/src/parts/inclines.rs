//! Inclines: static ramps in five stretch sizes.
use vstd::prelude::*;

use crate::parts::{PartDef, StateDef};
use crate::render::cells::{place_centered, CellRect, Glyph};
use crate::render::text_chars::{GRAY, RED_BROWN, YELLOW};

verus! {

#[derive(Debug, Clone, Copy, PartialEq, Eq, Structural)]
pub enum InclineType {
    BrickIncline,
    YellowBrickIncline,
    GraniteIncline,
}

impl InclineType {
    /// Position of the variant in the declaration of the enum.
    pub open spec fn variant_index(&self) -> int {
        match self {
            InclineType::BrickIncline => 0,
            InclineType::YellowBrickIncline => 1,
            InclineType::GraniteIncline => 2,
        }
    }

    /// Texture color of the incline.
    pub open spec fn base_rgb(&self) -> [u8; 3] {
        match self {
            InclineType::BrickIncline => RED_BROWN,
            InclineType::YellowBrickIncline => YELLOW,
            InclineType::GraniteIncline => GRAY,
        }
    }

    pub fn base_color(&self) -> (r: [u8; 3])
        ensures
            r == self.base_rgb(),
    {
        match self {
            InclineType::BrickIncline => RED_BROWN,
            InclineType::YellowBrickIncline => YELLOW,
            InclineType::GraniteIncline => GRAY,
        }
    }

    /// Stretch level to (width, height) in px: the height is the width times
    /// the tangent of the level's slope, rounded.
    /// VeryShort=30px/~70deg, Short=60px/~45deg, Medium=100px/~30deg, Long=150px/~18deg, VeryLong=200px/~10deg
    pub open spec fn stretch_dims(size_level: i32) -> (u32, u32) {
        match size_level {
            0 => (30, 82),
            1 => (60, 60),
            2 => (100, 58),
            3 => (150, 49),
            _ => (200, 35),
        }
    }

    /// Dimensions for a stretch level; the level is the property value truncated to an integer.
    pub fn size_dims(size_level: i32) -> (r: (u32, u32))
        ensures
            r == Self::stretch_dims(size_level),
    {
        match size_level {
            0 => (30, 82),
            1 => (60, 60),
            2 => (100, 58),
            3 => (150, 49),
            _ => (200, 35),
        }
    }
}

impl PartDef for InclineType {
    open spec fn name_text(&self) -> Seq<char> {
        match self {
            InclineType::BrickIncline => "Brick Incline"@,
            InclineType::YellowBrickIncline => "Yellow Brick Incline"@,
            InclineType::GraniteIncline => "Granite Incline"@,
        }
    }

    open spec fn description_text(&self) -> Seq<char> {
        match self {
            InclineType::BrickIncline => "Brick-textured ramp, 5 stretch sizes, flippable"@,
            InclineType::YellowBrickIncline => "Yellow brick ramp, 5 stretch sizes, flippable"@,
            InclineType::GraniteIncline => "Granite-textured ramp, 5 stretch sizes, lower friction"@,
        }
    }

    open spec fn category_text(&self) -> Seq<char> {
        "Inclines"@
    }

    open spec fn size_px(&self) -> (u32, u32) {
        (100, 58)
    }

    open spec fn icon_glyph(&self) -> char {
        '\u{25E2}'
    }

    open spec fn icon_rgb(&self) -> [u8; 3] {
        self.base_rgb()
    }

    open spec fn text_char(&self, flipped: bool) -> char {
        if flipped { '\u{25E3}' } else { '\u{25E2}' }
    }

    open spec fn state_table(&self) -> Seq<(Seq<char>, Seq<char>)> {
        seq![("Intact"@, "Solid incline surface"@)]
    }

    open spec fn animated(&self) -> bool {
        false
    }

    open spec fn resizable(&self) -> bool {
        false
    }

    open spec fn flippable(&self) -> bool {
        true
    }

    open spec fn dynamite_destructible(&self) -> bool {
        false
    }

    open spec fn ramp_capable(&self) -> bool {
        false
    }

    open spec fn rope_attachable(&self) -> bool {
        false
    }

    open spec fn power_consumer(&self) -> bool {
        false
    }

    open spec fn power_source(&self) -> bool {
        false
    }

    fn name(&self) -> &'static str {
        match self {
            InclineType::BrickIncline => "Brick Incline",
            InclineType::YellowBrickIncline => "Yellow Brick Incline",
            InclineType::GraniteIncline => "Granite Incline",
        }
    }

    fn description(&self) -> &'static str {
        match self {
            InclineType::BrickIncline => "Brick-textured ramp, 5 stretch sizes, flippable",
            InclineType::YellowBrickIncline => "Yellow brick ramp, 5 stretch sizes, flippable",
            InclineType::GraniteIncline => "Granite-textured ramp, 5 stretch sizes, lower friction",
        }
    }

    fn category(&self) -> &'static str {
        "Inclines"
    }

    fn default_size(&self) -> (u32, u32) {
        (100, 58)
    }

    fn icon_char(&self) -> char {
        '\u{25E2}'
    }

    fn icon_color(&self) -> [u8; 3] {
        self.base_color()
    }

    fn text_glyph(&self, area: CellRect, flipped: bool) -> Option<Glyph> {
        let ch = if flipped { '\u{25E3}' } else { '\u{25E2}' };
        place_centered(area, ch, self.icon_color())
    }

    fn states(&self) -> Vec<StateDef> {
        vec![StateDef { name: "Intact", description: "Solid incline surface" }]
    }

    fn has_animation(&self) -> bool {
        false
    }

    fn is_resizable(&self) -> bool {
        false
    }

    fn is_flippable(&self) -> bool {
        true
    }

    fn destructible_by_dynamite(&self) -> bool {
        false
    }

    fn can_be_ramp(&self) -> bool {
        false
    }

    fn has_rope_point(&self) -> bool {
        false
    }

    fn requires_power(&self) -> bool {
        false
    }

    fn provides_power(&self) -> bool {
        false
    }
}

} // verus!
