//! Ropes and cables.
use vstd::prelude::*;

use crate::parts::{PartDef, StateDef};
use crate::render::cells::{place_centered, CellRect, Glyph};
use crate::render::text_chars::{BROWN, SILVER};

verus! {

#[derive(Debug, Clone, Copy, PartialEq, Eq, Structural)]
pub enum RopeType {
    Rope,
    SteelCable,
}

impl RopeType {
    /// Position of the variant in the declaration of the enum.
    pub open spec fn variant_index(&self) -> int {
        match self {
            RopeType::Rope => 0,
            RopeType::SteelCable => 1,
        }
    }}

impl PartDef for RopeType {
    open spec fn name_text(&self) -> Seq<char> {
        match self {
            RopeType::Rope => "Rope"@,
            RopeType::SteelCable => "Steel Cable"@,
        }
    }

    open spec fn description_text(&self) -> Seq<char> {
        match self {
            RopeType::Rope => "Max 600px total; transmits force when taut; max 8 pulleys; cut by scissors/hedge trimmers/tin snips"@,
            RopeType::SteelCable => "Rigid line; ONLY cut by tin snips"@,
        }
    }

    open spec fn category_text(&self) -> Seq<char> {
        "Ropes"@
    }

    open spec fn size_px(&self) -> (u32, u32) {
        (64, 32)
    }

    open spec fn icon_glyph(&self) -> char {
        '\u{2502}'
    }

    open spec fn icon_rgb(&self) -> [u8; 3] {
        match self {
            RopeType::Rope => BROWN,
            RopeType::SteelCable => SILVER,
        }
    }

    open spec fn text_char(&self, flipped: bool) -> char {
        self.icon_glyph()
    }

    open spec fn state_table(&self) -> Seq<(Seq<char>, Seq<char>)> {
        seq![
            ("Slack"@, "Not under tension — no force transmitted"@),
            ("Taut"@, "Under tension — transmitting force"@),
            ("Cut"@, "Severed — connected parts lose tension"@),
        ]
    }

    open spec fn animated(&self) -> bool {
        false
    }

    open spec fn resizable(&self) -> bool {
        false
    }

    open spec fn flippable(&self) -> bool {
        false
    }

    open spec fn dynamite_destructible(&self) -> bool {
        false
    }

    open spec fn ramp_capable(&self) -> bool {
        false
    }

    open spec fn rope_attachable(&self) -> bool {
        false
    }

    open spec fn power_consumer(&self) -> bool {
        false
    }

    open spec fn power_source(&self) -> bool {
        false
    }

    fn name(&self) -> &'static str {
        match self {
            RopeType::Rope => "Rope",
            RopeType::SteelCable => "Steel Cable",
        }
    }

    fn description(&self) -> &'static str {
        match self {
            RopeType::Rope => "Max 600px total; transmits force when taut; max 8 pulleys; cut by scissors/hedge trimmers/tin snips",
            RopeType::SteelCable => "Rigid line; ONLY cut by tin snips",
        }
    }

    fn category(&self) -> &'static str {
        "Ropes"
    }

    fn default_size(&self) -> (u32, u32) {
        (64, 32)
    }

    fn icon_char(&self) -> char {
        '\u{2502}'
    }

    fn icon_color(&self) -> [u8; 3] {
        match self {
            RopeType::Rope => BROWN,
            RopeType::SteelCable => SILVER,
        }
    }

    fn text_glyph(&self, area: CellRect, _flipped: bool) -> Option<Glyph> {
        place_centered(area, self.icon_char(), self.icon_color())
    }

    fn states(&self) -> Vec<StateDef> {
        vec![
            StateDef { name: "Slack", description: "Not under tension — no force transmitted" },
            StateDef { name: "Taut", description: "Under tension — transmitting force" },
            StateDef { name: "Cut", description: "Severed — connected parts lose tension" },
        ]
    }

    fn has_animation(&self) -> bool {
        false
    }

    fn is_resizable(&self) -> bool {
        false
    }

    fn is_flippable(&self) -> bool {
        false
    }

    fn destructible_by_dynamite(&self) -> bool {
        false
    }

    fn can_be_ramp(&self) -> bool {
        false
    }

    fn has_rope_point(&self) -> bool {
        false
    }

    fn requires_power(&self) -> bool {
        false
    }

    fn provides_power(&self) -> bool {
        false
    }
}

} // verus!
