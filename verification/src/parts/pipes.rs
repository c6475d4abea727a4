//! Pipes: static tubes that guide balls.
use vstd::prelude::*;

use crate::parts::{PartDef, StateDef};
use crate::render::cells::{place_centered, CellRect, Glyph};
use crate::render::text_chars::{CYAN, GRAY};

verus! {

#[derive(Debug, Clone, Copy, PartialEq, Eq, Structural)]
pub enum PipeType {
    StraightPipe,
    TConnector,
    CurvedPipe,
    AcceleratorTube,
}

impl PipeType {
    /// Position of the variant in the declaration of the enum.
    pub open spec fn variant_index(&self) -> int {
        match self {
            PipeType::StraightPipe => 0,
            PipeType::TConnector => 1,
            PipeType::CurvedPipe => 2,
            PipeType::AcceleratorTube => 3,
        }
    }}

impl PartDef for PipeType {
    open spec fn name_text(&self) -> Seq<char> {
        match self {
            PipeType::StraightPipe => "Straight Pipe"@,
            PipeType::TConnector => "T-Connector"@,
            PipeType::CurvedPipe => "Curved Pipe"@,
            PipeType::AcceleratorTube => "Accelerator Tube"@,
        }
    }

    open spec fn description_text(&self) -> Seq<char> {
        match self {
            PipeType::StraightPipe => "Metal tube with open ends"@,
            PipeType::TConnector => "3-way junction"@,
            PipeType::CurvedPipe => "90-degree bend"@,
            PipeType::AcceleratorTube => "Glowing tube; speed multiplier 1.5x/2x/3x"@,
        }
    }

    open spec fn category_text(&self) -> Seq<char> {
        "Pipes"@
    }

    open spec fn size_px(&self) -> (u32, u32) {
        match self {
            PipeType::StraightPipe => (64, 24),
            PipeType::TConnector | PipeType::CurvedPipe => (24, 24),
            PipeType::AcceleratorTube => (32, 24),
        }
    }

    open spec fn icon_glyph(&self) -> char {
        match self {
            PipeType::StraightPipe => '\u{2550}',
            PipeType::TConnector => '\u{2566}',
            PipeType::CurvedPipe => '\u{256E}',
            PipeType::AcceleratorTube => '\u{21D2}',
        }
    }

    open spec fn icon_rgb(&self) -> [u8; 3] {
        match self {
            PipeType::AcceleratorTube => CYAN,
            _ => GRAY,
        }
    }

    open spec fn text_char(&self, flipped: bool) -> char {
        self.icon_glyph()
    }

    open spec fn state_table(&self) -> Seq<(Seq<char>, Seq<char>)> {
        match self {
            PipeType::AcceleratorTube => seq![
                ("Idle"@, "No object inside"@),
                ("Accelerating"@, "Object passing through — speed multiplied"@),
            ],
            _ => seq![
                ("Idle"@, "Static pipe segment"@),
            ],
        }
    }

    open spec fn animated(&self) -> bool {
        matches!(self, PipeType::AcceleratorTube)
    }

    open spec fn resizable(&self) -> bool {
        false
    }

    open spec fn flippable(&self) -> bool {
        false
    }

    open spec fn dynamite_destructible(&self) -> bool {
        false
    }

    open spec fn ramp_capable(&self) -> bool {
        true
    }

    open spec fn rope_attachable(&self) -> bool {
        false
    }

    open spec fn power_consumer(&self) -> bool {
        false
    }

    open spec fn power_source(&self) -> bool {
        false
    }

    fn name(&self) -> &'static str {
        match self {
            PipeType::StraightPipe => "Straight Pipe",
            PipeType::TConnector => "T-Connector",
            PipeType::CurvedPipe => "Curved Pipe",
            PipeType::AcceleratorTube => "Accelerator Tube",
        }
    }

    fn description(&self) -> &'static str {
        match self {
            PipeType::StraightPipe => "Metal tube with open ends",
            PipeType::TConnector => "3-way junction",
            PipeType::CurvedPipe => "90-degree bend",
            PipeType::AcceleratorTube => "Glowing tube; speed multiplier 1.5x/2x/3x",
        }
    }

    fn category(&self) -> &'static str {
        "Pipes"
    }

    fn default_size(&self) -> (u32, u32) {
        match self {
            PipeType::StraightPipe => (64, 24),
            PipeType::TConnector | PipeType::CurvedPipe => (24, 24),
            PipeType::AcceleratorTube => (32, 24),
        }
    }

    fn icon_char(&self) -> char {
        match self {
            PipeType::StraightPipe => '\u{2550}',
            PipeType::TConnector => '\u{2566}',
            PipeType::CurvedPipe => '\u{256E}',
            PipeType::AcceleratorTube => '\u{21D2}',
        }
    }

    fn icon_color(&self) -> [u8; 3] {
        match self {
            PipeType::AcceleratorTube => CYAN,
            _ => GRAY,
        }
    }

    fn text_glyph(&self, area: CellRect, _flipped: bool) -> Option<Glyph> {
        place_centered(area, self.icon_char(), self.icon_color())
    }

    fn states(&self) -> Vec<StateDef> {
        match self {
            PipeType::AcceleratorTube => vec![
                StateDef { name: "Idle", description: "No object inside" },
                StateDef { name: "Accelerating", description: "Object passing through — speed multiplied" },
            ],
            _ => vec![
                StateDef { name: "Idle", description: "Static pipe segment" },
            ],
        }
    }

    fn has_animation(&self) -> bool {
        matches!(self, PipeType::AcceleratorTube)
    }

    fn is_resizable(&self) -> bool {
        false
    }

    fn is_flippable(&self) -> bool {
        false
    }

    fn destructible_by_dynamite(&self) -> bool {
        false
    }

    fn can_be_ramp(&self) -> bool {
        true
    }

    fn has_rope_point(&self) -> bool {
        false
    }

    fn requires_power(&self) -> bool {
        false
    }

    fn provides_power(&self) -> bool {
        false
    }
}

} // verus!
