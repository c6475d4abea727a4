//! Lasers, mirrors and laser sensors.
use vstd::prelude::*;

use crate::parts::{PartDef, StateDef};
use crate::render::cells::{place_centered, CellRect, Glyph};
use crate::render::text_chars::{BLUE, GREEN, RED, WHITE};

verus! {

#[derive(Debug, Clone, Copy, PartialEq, Eq, Structural)]
pub enum LaserType {
    RedLaser,
    GreenLaser,
    BlueLaser,
    AngledMirror,
    LaserMixer,
    LaserDetector,
    LaserActivatedPlug,
}

impl LaserType {
    /// Position of the variant in the declaration of the enum.
    pub open spec fn variant_index(&self) -> int {
        match self {
            LaserType::RedLaser => 0,
            LaserType::GreenLaser => 1,
            LaserType::BlueLaser => 2,
            LaserType::AngledMirror => 3,
            LaserType::LaserMixer => 4,
            LaserType::LaserDetector => 5,
            LaserType::LaserActivatedPlug => 6,
        }
    }

    /// Color of the emitted beam.
    pub open spec fn laser_rgb(&self) -> [u8; 3] {
        match self {
            LaserType::RedLaser => [255, 40, 40],
            LaserType::GreenLaser => [40, 255, 40],
            LaserType::BlueLaser => [40, 80, 255],
            _ => WHITE,
        }
    }

    pub fn laser_color(&self) -> (r: [u8; 3])
        ensures
            r == self.laser_rgb(),
    {
        match self {
            LaserType::RedLaser => [255, 40, 40],
            LaserType::GreenLaser => [40, 255, 40],
            LaserType::BlueLaser => [40, 80, 255],
            _ => WHITE,
        }
    }
}

impl PartDef for LaserType {
    open spec fn name_text(&self) -> Seq<char> {
        match self {
            LaserType::RedLaser => "Red Laser"@,
            LaserType::GreenLaser => "Green Laser"@,
            LaserType::BlueLaser => "Blue Laser"@,
            LaserType::AngledMirror => "Angled Mirror"@,
            LaserType::LaserMixer => "Laser Mixer"@,
            LaserType::LaserDetector => "Laser Detector"@,
            LaserType::LaserActivatedPlug => "Laser-Activated Plug"@,
        }
    }

    open spec fn description_text(&self) -> Seq<char> {
        match self {
            LaserType::RedLaser => "Red laser emitter; ignites fuses/candles; pops balloons"@,
            LaserType::GreenLaser => "Green laser emitter; ignites fuses/candles; pops balloons"@,
            LaserType::BlueLaser => "Blue laser emitter; ignites fuses/candles; pops balloons"@,
            LaserType::AngledMirror => "Reflective surface; redirects laser beams 90 degrees"@,
            LaserType::LaserMixer => "Prism — combines colored laser inputs"@,
            LaserType::LaserDetector => "Sensor — triggers on any laser beam hit"@,
            LaserType::LaserActivatedPlug => "Powers outlet only when correct laser color hits"@,
        }
    }

    open spec fn category_text(&self) -> Seq<char> {
        "Lasers"@
    }

    open spec fn size_px(&self) -> (u32, u32) {
        match self {
            LaserType::RedLaser | LaserType::GreenLaser | LaserType::BlueLaser => (24, 12),
            LaserType::AngledMirror | LaserType::LaserDetector => (16, 16),
            LaserType::LaserMixer => (24, 24),
            LaserType::LaserActivatedPlug => (16, 24),
        }
    }

    open spec fn icon_glyph(&self) -> char {
        match self {
            LaserType::RedLaser | LaserType::GreenLaser | LaserType::BlueLaser => '\u{2500}',
            LaserType::AngledMirror => '\u{2571}',
            LaserType::LaserMixer => '\u{25C7}',
            LaserType::LaserDetector | LaserType::LaserActivatedPlug => '\u{25C9}',
        }
    }

    open spec fn icon_rgb(&self) -> [u8; 3] {
        match self {
            LaserType::RedLaser => RED,
            LaserType::GreenLaser => GREEN,
            LaserType::BlueLaser => BLUE,
            _ => WHITE,
        }
    }

    open spec fn text_char(&self, flipped: bool) -> char {
        self.icon_glyph()
    }

    open spec fn state_table(&self) -> Seq<(Seq<char>, Seq<char>)> {
        match self {
            LaserType::RedLaser | LaserType::GreenLaser | LaserType::BlueLaser => seq![
                ("Off"@, "Not emitting"@),
                ("Emitting"@, "Beam active — ignites/pops on contact"@),
            ],
            LaserType::LaserDetector => seq![
                ("Idle"@, "No beam hitting sensor"@),
                ("Triggered"@, "Beam detected — signal active"@),
            ],
            LaserType::LaserActivatedPlug => seq![
                ("Inactive"@, "Wrong color or no laser"@),
                ("Active"@, "Correct laser color — providing power"@),
            ],
            _ => seq![
                ("Idle"@, "Passive component"@),
            ],
        }
    }

    open spec fn animated(&self) -> bool {
        matches!(self, LaserType::RedLaser | LaserType::GreenLaser | LaserType::BlueLaser | LaserType::LaserDetector)
    }

    open spec fn resizable(&self) -> bool {
        false
    }

    open spec fn flippable(&self) -> bool {
        false
    }

    open spec fn dynamite_destructible(&self) -> bool {
        false
    }

    open spec fn ramp_capable(&self) -> bool {
        false
    }

    open spec fn rope_attachable(&self) -> bool {
        false
    }

    open spec fn power_consumer(&self) -> bool {
        false
    }

    open spec fn power_source(&self) -> bool {
        matches!(self, LaserType::LaserActivatedPlug)
    }

    fn name(&self) -> &'static str {
        match self {
            LaserType::RedLaser => "Red Laser",
            LaserType::GreenLaser => "Green Laser",
            LaserType::BlueLaser => "Blue Laser",
            LaserType::AngledMirror => "Angled Mirror",
            LaserType::LaserMixer => "Laser Mixer",
            LaserType::LaserDetector => "Laser Detector",
            LaserType::LaserActivatedPlug => "Laser-Activated Plug",
        }
    }

    fn description(&self) -> &'static str {
        match self {
            LaserType::RedLaser => "Red laser emitter; ignites fuses/candles; pops balloons",
            LaserType::GreenLaser => "Green laser emitter; ignites fuses/candles; pops balloons",
            LaserType::BlueLaser => "Blue laser emitter; ignites fuses/candles; pops balloons",
            LaserType::AngledMirror => "Reflective surface; redirects laser beams 90 degrees",
            LaserType::LaserMixer => "Prism — combines colored laser inputs",
            LaserType::LaserDetector => "Sensor — triggers on any laser beam hit",
            LaserType::LaserActivatedPlug => "Powers outlet only when correct laser color hits",
        }
    }

    fn category(&self) -> &'static str {
        "Lasers"
    }

    fn default_size(&self) -> (u32, u32) {
        match self {
            LaserType::RedLaser | LaserType::GreenLaser | LaserType::BlueLaser => (24, 12),
            LaserType::AngledMirror | LaserType::LaserDetector => (16, 16),
            LaserType::LaserMixer => (24, 24),
            LaserType::LaserActivatedPlug => (16, 24),
        }
    }

    fn icon_char(&self) -> char {
        match self {
            LaserType::RedLaser | LaserType::GreenLaser | LaserType::BlueLaser => '\u{2500}',
            LaserType::AngledMirror => '\u{2571}',
            LaserType::LaserMixer => '\u{25C7}',
            LaserType::LaserDetector | LaserType::LaserActivatedPlug => '\u{25C9}',
        }
    }

    fn icon_color(&self) -> [u8; 3] {
        match self {
            LaserType::RedLaser => RED,
            LaserType::GreenLaser => GREEN,
            LaserType::BlueLaser => BLUE,
            _ => WHITE,
        }
    }

    fn text_glyph(&self, area: CellRect, _flipped: bool) -> Option<Glyph> {
        place_centered(area, self.icon_char(), self.icon_color())
    }

    fn states(&self) -> Vec<StateDef> {
        match self {
            LaserType::RedLaser | LaserType::GreenLaser | LaserType::BlueLaser => vec![
                StateDef { name: "Off", description: "Not emitting" },
                StateDef { name: "Emitting", description: "Beam active — ignites/pops on contact" },
            ],
            LaserType::LaserDetector => vec![
                StateDef { name: "Idle", description: "No beam hitting sensor" },
                StateDef { name: "Triggered", description: "Beam detected — signal active" },
            ],
            LaserType::LaserActivatedPlug => vec![
                StateDef { name: "Inactive", description: "Wrong color or no laser" },
                StateDef { name: "Active", description: "Correct laser color — providing power" },
            ],
            _ => vec![
                StateDef { name: "Idle", description: "Passive component" },
            ],
        }
    }

    fn has_animation(&self) -> bool {
        matches!(self, LaserType::RedLaser | LaserType::GreenLaser | LaserType::BlueLaser | LaserType::LaserDetector)
    }

    fn is_resizable(&self) -> bool {
        false
    }

    fn is_flippable(&self) -> bool {
        false
    }

    fn destructible_by_dynamite(&self) -> bool {
        false
    }

    fn can_be_ramp(&self) -> bool {
        false
    }

    fn has_rope_point(&self) -> bool {
        false
    }

    fn requires_power(&self) -> bool {
        false
    }

    fn provides_power(&self) -> bool {
        matches!(self, LaserType::LaserActivatedPlug)
    }
}

} // verus!
