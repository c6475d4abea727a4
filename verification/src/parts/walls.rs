//! Walls: static building blocks.
use vstd::prelude::*;

use crate::parts::{PartDef, StateDef};
use crate::render::cells::{place_centered, CellRect, Glyph};
use crate::render::text_chars::{BROWN, CREAM, DARK_BROWN, GRAY, GREEN, RED_BROWN, STEEL, TAN, WHITE, YELLOW};

verus! {

#[derive(Debug, Clone, Copy, PartialEq, Eq, Structural)]
pub enum WallType {
    BrickWall,
    YellowBrickWall,
    CinderBlockWall,
    GrecoRomanWall,
    WoodenWall,
    LogWall,
    CautionWall,
    SandWall,
    PipeWall,
    CurvedPipeWall,
    GrassFloor,
    ScaffoldBarrier,
    WoodenBarrier,
    LatticeArchway,
    MarbleArchway,
}

impl WallType {
    /// Position of the variant in the declaration of the enum.
    pub open spec fn variant_index(&self) -> int {
        match self {
            WallType::BrickWall => 0,
            WallType::YellowBrickWall => 1,
            WallType::CinderBlockWall => 2,
            WallType::GrecoRomanWall => 3,
            WallType::WoodenWall => 4,
            WallType::LogWall => 5,
            WallType::CautionWall => 6,
            WallType::SandWall => 7,
            WallType::PipeWall => 8,
            WallType::CurvedPipeWall => 9,
            WallType::GrassFloor => 10,
            WallType::ScaffoldBarrier => 11,
            WallType::WoodenBarrier => 12,
            WallType::LatticeArchway => 13,
            WallType::MarbleArchway => 14,
        }
    }

    /// Texture color of the wall.
    pub open spec fn base_rgb(&self) -> [u8; 3] {
        match self {
            WallType::BrickWall => RED_BROWN,
            WallType::YellowBrickWall => YELLOW,
            WallType::CinderBlockWall => GRAY,
            WallType::GrecoRomanWall => CREAM,
            WallType::WoodenWall => BROWN,
            WallType::LogWall => DARK_BROWN,
            WallType::CautionWall => YELLOW,
            WallType::SandWall => TAN,
            WallType::PipeWall => STEEL,
            WallType::CurvedPipeWall => STEEL,
            WallType::GrassFloor => GREEN,
            WallType::ScaffoldBarrier => GRAY,
            WallType::WoodenBarrier => BROWN,
            WallType::LatticeArchway => WHITE,
            WallType::MarbleArchway => CREAM,
        }
    }

    pub fn base_color(&self) -> (r: [u8; 3])
        ensures
            r == self.base_rgb(),
    {
        match self {
            WallType::BrickWall => RED_BROWN,
            WallType::YellowBrickWall => YELLOW,
            WallType::CinderBlockWall => GRAY,
            WallType::GrecoRomanWall => CREAM,
            WallType::WoodenWall => BROWN,
            WallType::LogWall => DARK_BROWN,
            WallType::CautionWall => YELLOW,
            WallType::SandWall => TAN,
            WallType::PipeWall => STEEL,
            WallType::CurvedPipeWall => STEEL,
            WallType::GrassFloor => GREEN,
            WallType::ScaffoldBarrier => GRAY,
            WallType::WoodenBarrier => BROWN,
            WallType::LatticeArchway => WHITE,
            WallType::MarbleArchway => CREAM,
        }
    }
}

impl PartDef for WallType {
    open spec fn name_text(&self) -> Seq<char> {
        match self {
            WallType::BrickWall => "Brick Wall"@,
            WallType::YellowBrickWall => "Yellow Brick Wall"@,
            WallType::CinderBlockWall => "Cinder Block Wall"@,
            WallType::GrecoRomanWall => "Greco-Roman Wall"@,
            WallType::WoodenWall => "Wooden Wall"@,
            WallType::LogWall => "Log Wall"@,
            WallType::CautionWall => "Caution Wall"@,
            WallType::SandWall => "Sand Wall"@,
            WallType::PipeWall => "Pipe Wall"@,
            WallType::CurvedPipeWall => "Curved Pipe Wall"@,
            WallType::GrassFloor => "Grass Floor"@,
            WallType::ScaffoldBarrier => "Scaffold Barrier"@,
            WallType::WoodenBarrier => "Wooden Barrier"@,
            WallType::LatticeArchway => "Lattice Archway"@,
            WallType::MarbleArchway => "Marble Archway"@,
        }
    }

    open spec fn description_text(&self) -> Seq<char> {
        match self {
            WallType::BrickWall => "Red-brown bricks with mortar lines"@,
            WallType::YellowBrickWall => "Yellow bricks pattern"@,
            WallType::CinderBlockWall => "Gray blocks, heavy texture"@,
            WallType::GrecoRomanWall => "Marble texture with column lines"@,
            WallType::WoodenWall => "Wood grain, horizontal lines"@,
            WallType::LogWall => "Rounded log cross-sections"@,
            WallType::CautionWall => "Yellow/black diagonal stripes, high friction"@,
            WallType::SandWall => "Sandy texture, speckled"@,
            WallType::PipeWall => "Steel grey with rivet lines, indestructible"@,
            WallType::CurvedPipeWall => "Quarter-circle metal pipe, 4 rotations"@,
            WallType::GrassFloor => "Green grass top, brown dirt below"@,
            WallType::ScaffoldBarrier => "Metal scaffold frame"@,
            WallType::WoodenBarrier => "Small wooden cross-planks"@,
            WallType::LatticeArchway => "Criss-cross lattice pattern"@,
            WallType::MarbleArchway => "Marble columns with arch top"@,
        }
    }

    open spec fn category_text(&self) -> Seq<char> {
        "Walls"@
    }

    open spec fn size_px(&self) -> (u32, u32) {
        match self {
            WallType::CurvedPipeWall => (32, 32),
            WallType::GrassFloor => (64, 16),
            WallType::ScaffoldBarrier => (32, 48),
            WallType::WoodenBarrier => (24, 24),
            WallType::LatticeArchway | WallType::MarbleArchway => (48, 64),
            _ => (64, 32),
        }
    }

    open spec fn icon_glyph(&self) -> char {
        match self {
            WallType::CurvedPipeWall => '\u{256E}',
            WallType::GrassFloor => '\u{2594}',
            WallType::ScaffoldBarrier => '\u{256C}',
            WallType::WoodenBarrier => '\u{2573}',
            WallType::LatticeArchway => '\u{256C}',
            WallType::MarbleArchway => '\u{03A0}',
            _ => '\u{2588}',
        }
    }

    open spec fn icon_rgb(&self) -> [u8; 3] {
        self.base_rgb()
    }

    open spec fn text_char(&self, flipped: bool) -> char {
        self.icon_glyph()
    }

    open spec fn state_table(&self) -> Seq<(Seq<char>, Seq<char>)> {
        if self.dynamite_destructible() {
            seq![("Intact"@, "Normal solid state"@), ("Destroyed"@, "Demolished by dynamite"@)]
        } else {
            seq![("Intact"@, "Normal solid state"@)]
        }
    }

    open spec fn animated(&self) -> bool {
        false
    }

    open spec fn resizable(&self) -> bool {
        matches!(self,
            WallType::BrickWall | WallType::YellowBrickWall | WallType::CinderBlockWall |
            WallType::GrecoRomanWall | WallType::WoodenWall | WallType::LogWall |
            WallType::CautionWall | WallType::SandWall | WallType::PipeWall
        )
    }

    open spec fn flippable(&self) -> bool {
        false
    }

    open spec fn dynamite_destructible(&self) -> bool {
        matches!(self,
            WallType::BrickWall | WallType::YellowBrickWall |
            WallType::CinderBlockWall | WallType::WoodenWall
        )
    }

    open spec fn ramp_capable(&self) -> bool {
        false
    }

    open spec fn rope_attachable(&self) -> bool {
        false
    }

    open spec fn power_consumer(&self) -> bool {
        false
    }

    open spec fn power_source(&self) -> bool {
        false
    }

    fn name(&self) -> &'static str {
        match self {
            WallType::BrickWall => "Brick Wall",
            WallType::YellowBrickWall => "Yellow Brick Wall",
            WallType::CinderBlockWall => "Cinder Block Wall",
            WallType::GrecoRomanWall => "Greco-Roman Wall",
            WallType::WoodenWall => "Wooden Wall",
            WallType::LogWall => "Log Wall",
            WallType::CautionWall => "Caution Wall",
            WallType::SandWall => "Sand Wall",
            WallType::PipeWall => "Pipe Wall",
            WallType::CurvedPipeWall => "Curved Pipe Wall",
            WallType::GrassFloor => "Grass Floor",
            WallType::ScaffoldBarrier => "Scaffold Barrier",
            WallType::WoodenBarrier => "Wooden Barrier",
            WallType::LatticeArchway => "Lattice Archway",
            WallType::MarbleArchway => "Marble Archway",
        }
    }

    fn description(&self) -> &'static str {
        match self {
            WallType::BrickWall => "Red-brown bricks with mortar lines",
            WallType::YellowBrickWall => "Yellow bricks pattern",
            WallType::CinderBlockWall => "Gray blocks, heavy texture",
            WallType::GrecoRomanWall => "Marble texture with column lines",
            WallType::WoodenWall => "Wood grain, horizontal lines",
            WallType::LogWall => "Rounded log cross-sections",
            WallType::CautionWall => "Yellow/black diagonal stripes, high friction",
            WallType::SandWall => "Sandy texture, speckled",
            WallType::PipeWall => "Steel grey with rivet lines, indestructible",
            WallType::CurvedPipeWall => "Quarter-circle metal pipe, 4 rotations",
            WallType::GrassFloor => "Green grass top, brown dirt below",
            WallType::ScaffoldBarrier => "Metal scaffold frame",
            WallType::WoodenBarrier => "Small wooden cross-planks",
            WallType::LatticeArchway => "Criss-cross lattice pattern",
            WallType::MarbleArchway => "Marble columns with arch top",
        }
    }

    fn category(&self) -> &'static str {
        "Walls"
    }

    fn default_size(&self) -> (u32, u32) {
        match self {
            WallType::CurvedPipeWall => (32, 32),
            WallType::GrassFloor => (64, 16),
            WallType::ScaffoldBarrier => (32, 48),
            WallType::WoodenBarrier => (24, 24),
            WallType::LatticeArchway | WallType::MarbleArchway => (48, 64),
            _ => (64, 32),
        }
    }

    fn icon_char(&self) -> char {
        match self {
            WallType::CurvedPipeWall => '\u{256E}',
            WallType::GrassFloor => '\u{2594}',
            WallType::ScaffoldBarrier => '\u{256C}',
            WallType::WoodenBarrier => '\u{2573}',
            WallType::LatticeArchway => '\u{256C}',
            WallType::MarbleArchway => '\u{03A0}',
            _ => '\u{2588}',
        }
    }

    fn icon_color(&self) -> [u8; 3] {
        self.base_color()
    }

    fn text_glyph(&self, area: CellRect, _flipped: bool) -> Option<Glyph> {
        place_centered(area, self.icon_char(), self.icon_color())
    }

    fn states(&self) -> Vec<StateDef> {
        let mut s = vec![StateDef { name: "Intact", description: "Normal solid state" }];
        if self.destructible_by_dynamite() {
            s.push(StateDef { name: "Destroyed", description: "Demolished by dynamite" });
        }
        s
    }

    fn has_animation(&self) -> bool {
        false
    }

    fn is_resizable(&self) -> bool {
        matches!(self,
            WallType::BrickWall | WallType::YellowBrickWall | WallType::CinderBlockWall |
            WallType::GrecoRomanWall | WallType::WoodenWall | WallType::LogWall |
            WallType::CautionWall | WallType::SandWall | WallType::PipeWall
        )
    }

    fn is_flippable(&self) -> bool {
        false
    }

    fn destructible_by_dynamite(&self) -> bool {
        matches!(self,
            WallType::BrickWall | WallType::YellowBrickWall |
            WallType::CinderBlockWall | WallType::WoodenWall
        )
    }

    fn can_be_ramp(&self) -> bool {
        false
    }

    fn has_rope_point(&self) -> bool {
        false
    }

    fn requires_power(&self) -> bool {
        false
    }

    fn provides_power(&self) -> bool {
        false
    }
}

} // verus!
