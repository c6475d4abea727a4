//! Pyrotechnic parts: light sources, fuses and explosives.
use vstd::prelude::*;

use crate::parts::{PartDef, StateDef};
use crate::render::cells::{place_centered, CellRect, Glyph};
use crate::render::text_chars::{BROWN, GRAY, MAGENTA, PURPLE, RED, WHITE, YELLOW};

verus! {

#[derive(Debug, Clone, Copy, PartialEq, Eq, Structural)]
pub enum PyrotechnicType {
    MagnifyingGlass,
    Flashlight,
    LavaLamp,
    Candle,
    Dynamite,
    DynamitePlunger,
    Cannon,
    Rocket,
    Fireworks,
    RemoteControlBomb,
    MatchOnSpring,
    Fuse,
}

impl PyrotechnicType {
    /// Position of the variant in the declaration of the enum.
    pub open spec fn variant_index(&self) -> int {
        match self {
            PyrotechnicType::MagnifyingGlass => 0,
            PyrotechnicType::Flashlight => 1,
            PyrotechnicType::LavaLamp => 2,
            PyrotechnicType::Candle => 3,
            PyrotechnicType::Dynamite => 4,
            PyrotechnicType::DynamitePlunger => 5,
            PyrotechnicType::Cannon => 6,
            PyrotechnicType::Rocket => 7,
            PyrotechnicType::Fireworks => 8,
            PyrotechnicType::RemoteControlBomb => 9,
            PyrotechnicType::MatchOnSpring => 10,
            PyrotechnicType::Fuse => 11,
        }
    }}

impl PartDef for PyrotechnicType {
    open spec fn name_text(&self) -> Seq<char> {
        match self {
            PyrotechnicType::MagnifyingGlass => "Magnifying Glass"@,
            PyrotechnicType::Flashlight => "Flashlight"@,
            PyrotechnicType::LavaLamp => "Lava Lamp"@,
            PyrotechnicType::Candle => "Candle"@,
            PyrotechnicType::Dynamite => "Dynamite"@,
            PyrotechnicType::DynamitePlunger => "Dynamite Plunger"@,
            PyrotechnicType::Cannon => "Cannon"@,
            PyrotechnicType::Rocket => "Rocket"@,
            PyrotechnicType::Fireworks => "Fireworks"@,
            PyrotechnicType::RemoteControlBomb => "Remote Control Bomb"@,
            PyrotechnicType::MatchOnSpring => "Match on Spring"@,
            PyrotechnicType::Fuse => "Fuse"@,
        }
    }

    open spec fn description_text(&self) -> Seq<char> {
        match self {
            PyrotechnicType::MagnifyingGlass => "Untouchable; focuses light into ~100px beam"@,
            PyrotechnicType::Flashlight => "Object-activated; ~200px beam range"@,
            PyrotechnicType::LavaLamp => "Drawstring-activated; omnidirectional ~100px light"@,
            PyrotechnicType::Candle => "Dynamic; mass 0.05; lit/extinguished; ignites fuses"@,
            PyrotechnicType::Dynamite => "Dynamic; 1.5s fuse; destroys brick/wood within ~60px"@,
            PyrotechnicType::DynamitePlunger => "Static; instant detonation on press; no chain-react"@,
            PyrotechnicType::Cannon => "Static; ~1.0s fuse; fires cannonball at ~1500 px/s"@,
            PyrotechnicType::Rocket => "Dynamic; ~0.8s fuse; launches at ~2000 px/s; trail ignites"@,
            PyrotechnicType::Fireworks => "Dynamic; ~1.5s; cosmetic colored explosion at apogee"@,
            PyrotechnicType::RemoteControlBomb => "Dynamic; trigger signal; same as dynamite"@,
            PyrotechnicType::MatchOnSpring => "Match head on coiled spring"@,
            PyrotechnicType::Fuse => "16-200px braided wire; burns at ~60px/s from ignition point"@,
        }
    }

    open spec fn category_text(&self) -> Seq<char> {
        "Pyrotechnic"@
    }

    open spec fn size_px(&self) -> (u32, u32) {
        match self {
            PyrotechnicType::MagnifyingGlass => (16, 24),
            PyrotechnicType::Flashlight => (32, 12),
            PyrotechnicType::LavaLamp => (16, 32),
            PyrotechnicType::Candle => (8, 16),
            PyrotechnicType::Dynamite => (12, 20),
            PyrotechnicType::DynamitePlunger => (20, 28),
            PyrotechnicType::Cannon => (48, 24),
            PyrotechnicType::Rocket => (12, 28),
            PyrotechnicType::Fireworks => (10, 24),
            PyrotechnicType::RemoteControlBomb => (16, 16),
            PyrotechnicType::MatchOnSpring => (12, 20),
            PyrotechnicType::Fuse => (64, 4),
        }
    }

    open spec fn icon_glyph(&self) -> char {
        match self {
            PyrotechnicType::MagnifyingGlass => '\u{25CE}',
            PyrotechnicType::Flashlight => '\u{25BA}',
            PyrotechnicType::LavaLamp | PyrotechnicType::Candle => '\u{2565}',
            PyrotechnicType::Dynamite => '\u{256B}',
            PyrotechnicType::DynamitePlunger => '\u{2564}',
            PyrotechnicType::Cannon => '\u{2550}',
            PyrotechnicType::Rocket | PyrotechnicType::Fireworks => '\u{25B2}',
            PyrotechnicType::RemoteControlBomb => '\u{2731}',
            PyrotechnicType::MatchOnSpring => '\u{2191}',
            PyrotechnicType::Fuse => '\u{2500}',
        }
    }

    open spec fn icon_rgb(&self) -> [u8; 3] {
        match self {
            PyrotechnicType::MagnifyingGlass => WHITE,
            PyrotechnicType::Flashlight | PyrotechnicType::Candle => YELLOW,
            PyrotechnicType::LavaLamp => PURPLE,
            PyrotechnicType::Dynamite | PyrotechnicType::DynamitePlunger |
            PyrotechnicType::Rocket | PyrotechnicType::RemoteControlBomb |
            PyrotechnicType::MatchOnSpring => RED,
            PyrotechnicType::Cannon => GRAY,
            PyrotechnicType::Fireworks => MAGENTA,
            PyrotechnicType::Fuse => BROWN,
        }
    }

    open spec fn text_char(&self, flipped: bool) -> char {
        self.icon_glyph()
    }

    open spec fn state_table(&self) -> Seq<(Seq<char>, Seq<char>)> {
        match self {
            PyrotechnicType::Candle => seq![
                ("Unlit"@, "No flame"@),
                ("Lit"@, "Burning — provides light; ignites fuses on contact"@),
                ("Extinguished"@, "Was lit, now out"@),
            ],
            PyrotechnicType::Fuse => seq![
                ("Unburnt"@, "Static braided wire"@),
                ("Burning"@, "Spark traveling at ~60px/s from ignition point"@),
                ("Spent"@, "Fully burned — dark/charred appearance"@),
            ],
            PyrotechnicType::Dynamite | PyrotechnicType::RemoteControlBomb => seq![
                ("Idle"@, "Inert — waiting for ignition"@),
                ("FuseLit"@, "Fuse burning — 1.5s to detonation"@),
                ("Exploded"@, "Destroyed walls within ~60px radius"@),
            ],
            PyrotechnicType::Cannon => seq![
                ("Ready"@, "Loaded — waiting for fuse"@),
                ("FuseLit"@, "Fuse burning — ~1.0s to fire"@),
                ("Fired"@, "Cannonball launched at ~1500 px/s + recoil"@),
            ],
            PyrotechnicType::Rocket => seq![
                ("Idle"@, "Grounded — waiting for fuse"@),
                ("FuseLit"@, "Fuse burning — ~0.8s"@),
                ("Launched"@, "Flying at ~2000 px/s; trail ignites objects"@),
            ],
            PyrotechnicType::Fireworks => seq![
                ("Idle"@, "Waiting for ignition"@),
                ("FuseLit"@, "~1.5s fuse"@),
                ("Launched"@, "Rising"@),
                ("Exploded"@, "Cosmetic colored burst at apogee"@),
            ],
            PyrotechnicType::Flashlight => seq![
                ("Off"@, "Switch not struck"@),
                ("On"@, "Object struck switch — ~200px beam active"@),
            ],
            PyrotechnicType::LavaLamp => seq![
                ("Off"@, "Drawstring not pulled"@),
                ("On"@, "Drawstring pulled — omnidirectional ~100px light"@),
            ],
            PyrotechnicType::DynamitePlunger => seq![
                ("Ready"@, "Handle up"@),
                ("Pressed"@, "Plunger pressed — immediate detonation"@),
            ],
            _ => seq![
                ("Idle"@, "Default state"@),
            ],
        }
    }

    open spec fn animated(&self) -> bool {
        matches!(self,
            PyrotechnicType::Candle | PyrotechnicType::Cannon | PyrotechnicType::LavaLamp |
            PyrotechnicType::RemoteControlBomb | PyrotechnicType::Flashlight
        )
    }

    open spec fn resizable(&self) -> bool {
        false
    }

    open spec fn flippable(&self) -> bool {
        matches!(self,
            PyrotechnicType::MagnifyingGlass | PyrotechnicType::Flashlight | PyrotechnicType::Cannon
        )
    }

    open spec fn dynamite_destructible(&self) -> bool {
        false
    }

    open spec fn ramp_capable(&self) -> bool {
        false
    }

    open spec fn rope_attachable(&self) -> bool {
        false
    }

    open spec fn power_consumer(&self) -> bool {
        false
    }

    open spec fn power_source(&self) -> bool {
        false
    }

    fn name(&self) -> &'static str {
        match self {
            PyrotechnicType::MagnifyingGlass => "Magnifying Glass",
            PyrotechnicType::Flashlight => "Flashlight",
            PyrotechnicType::LavaLamp => "Lava Lamp",
            PyrotechnicType::Candle => "Candle",
            PyrotechnicType::Dynamite => "Dynamite",
            PyrotechnicType::DynamitePlunger => "Dynamite Plunger",
            PyrotechnicType::Cannon => "Cannon",
            PyrotechnicType::Rocket => "Rocket",
            PyrotechnicType::Fireworks => "Fireworks",
            PyrotechnicType::RemoteControlBomb => "Remote Control Bomb",
            PyrotechnicType::MatchOnSpring => "Match on Spring",
            PyrotechnicType::Fuse => "Fuse",
        }
    }

    fn description(&self) -> &'static str {
        match self {
            PyrotechnicType::MagnifyingGlass => "Untouchable; focuses light into ~100px beam",
            PyrotechnicType::Flashlight => "Object-activated; ~200px beam range",
            PyrotechnicType::LavaLamp => "Drawstring-activated; omnidirectional ~100px light",
            PyrotechnicType::Candle => "Dynamic; mass 0.05; lit/extinguished; ignites fuses",
            PyrotechnicType::Dynamite => "Dynamic; 1.5s fuse; destroys brick/wood within ~60px",
            PyrotechnicType::DynamitePlunger => "Static; instant detonation on press; no chain-react",
            PyrotechnicType::Cannon => "Static; ~1.0s fuse; fires cannonball at ~1500 px/s",
            PyrotechnicType::Rocket => "Dynamic; ~0.8s fuse; launches at ~2000 px/s; trail ignites",
            PyrotechnicType::Fireworks => "Dynamic; ~1.5s; cosmetic colored explosion at apogee",
            PyrotechnicType::RemoteControlBomb => "Dynamic; trigger signal; same as dynamite",
            PyrotechnicType::MatchOnSpring => "Match head on coiled spring",
            PyrotechnicType::Fuse => "16-200px braided wire; burns at ~60px/s from ignition point",
        }
    }

    fn category(&self) -> &'static str {
        "Pyrotechnic"
    }

    fn default_size(&self) -> (u32, u32) {
        match self {
            PyrotechnicType::MagnifyingGlass => (16, 24),
            PyrotechnicType::Flashlight => (32, 12),
            PyrotechnicType::LavaLamp => (16, 32),
            PyrotechnicType::Candle => (8, 16),
            PyrotechnicType::Dynamite => (12, 20),
            PyrotechnicType::DynamitePlunger => (20, 28),
            PyrotechnicType::Cannon => (48, 24),
            PyrotechnicType::Rocket => (12, 28),
            PyrotechnicType::Fireworks => (10, 24),
            PyrotechnicType::RemoteControlBomb => (16, 16),
            PyrotechnicType::MatchOnSpring => (12, 20),
            PyrotechnicType::Fuse => (64, 4),
        }
    }

    fn icon_char(&self) -> char {
        match self {
            PyrotechnicType::MagnifyingGlass => '\u{25CE}',
            PyrotechnicType::Flashlight => '\u{25BA}',
            PyrotechnicType::LavaLamp | PyrotechnicType::Candle => '\u{2565}',
            PyrotechnicType::Dynamite => '\u{256B}',
            PyrotechnicType::DynamitePlunger => '\u{2564}',
            PyrotechnicType::Cannon => '\u{2550}',
            PyrotechnicType::Rocket | PyrotechnicType::Fireworks => '\u{25B2}',
            PyrotechnicType::RemoteControlBomb => '\u{2731}',
            PyrotechnicType::MatchOnSpring => '\u{2191}',
            PyrotechnicType::Fuse => '\u{2500}',
        }
    }

    fn icon_color(&self) -> [u8; 3] {
        match self {
            PyrotechnicType::MagnifyingGlass => WHITE,
            PyrotechnicType::Flashlight | PyrotechnicType::Candle => YELLOW,
            PyrotechnicType::LavaLamp => PURPLE,
            PyrotechnicType::Dynamite | PyrotechnicType::DynamitePlunger |
            PyrotechnicType::Rocket | PyrotechnicType::RemoteControlBomb |
            PyrotechnicType::MatchOnSpring => RED,
            PyrotechnicType::Cannon => GRAY,
            PyrotechnicType::Fireworks => MAGENTA,
            PyrotechnicType::Fuse => BROWN,
        }
    }

    fn text_glyph(&self, area: CellRect, _flipped: bool) -> Option<Glyph> {
        place_centered(area, self.icon_char(), self.icon_color())
    }

    fn states(&self) -> Vec<StateDef> {
        match self {
            PyrotechnicType::Candle => vec![
                StateDef { name: "Unlit", description: "No flame" },
                StateDef { name: "Lit", description: "Burning — provides light; ignites fuses on contact" },
                StateDef { name: "Extinguished", description: "Was lit, now out" },
            ],
            PyrotechnicType::Fuse => vec![
                StateDef { name: "Unburnt", description: "Static braided wire" },
                StateDef { name: "Burning", description: "Spark traveling at ~60px/s from ignition point" },
                StateDef { name: "Spent", description: "Fully burned — dark/charred appearance" },
            ],
            PyrotechnicType::Dynamite | PyrotechnicType::RemoteControlBomb => vec![
                StateDef { name: "Idle", description: "Inert — waiting for ignition" },
                StateDef { name: "FuseLit", description: "Fuse burning — 1.5s to detonation" },
                StateDef { name: "Exploded", description: "Destroyed walls within ~60px radius" },
            ],
            PyrotechnicType::Cannon => vec![
                StateDef { name: "Ready", description: "Loaded — waiting for fuse" },
                StateDef { name: "FuseLit", description: "Fuse burning — ~1.0s to fire" },
                StateDef { name: "Fired", description: "Cannonball launched at ~1500 px/s + recoil" },
            ],
            PyrotechnicType::Rocket => vec![
                StateDef { name: "Idle", description: "Grounded — waiting for fuse" },
                StateDef { name: "FuseLit", description: "Fuse burning — ~0.8s" },
                StateDef { name: "Launched", description: "Flying at ~2000 px/s; trail ignites objects" },
            ],
            PyrotechnicType::Fireworks => vec![
                StateDef { name: "Idle", description: "Waiting for ignition" },
                StateDef { name: "FuseLit", description: "~1.5s fuse" },
                StateDef { name: "Launched", description: "Rising" },
                StateDef { name: "Exploded", description: "Cosmetic colored burst at apogee" },
            ],
            PyrotechnicType::Flashlight => vec![
                StateDef { name: "Off", description: "Switch not struck" },
                StateDef { name: "On", description: "Object struck switch — ~200px beam active" },
            ],
            PyrotechnicType::LavaLamp => vec![
                StateDef { name: "Off", description: "Drawstring not pulled" },
                StateDef { name: "On", description: "Drawstring pulled — omnidirectional ~100px light" },
            ],
            PyrotechnicType::DynamitePlunger => vec![
                StateDef { name: "Ready", description: "Handle up" },
                StateDef { name: "Pressed", description: "Plunger pressed — immediate detonation" },
            ],
            _ => vec![
                StateDef { name: "Idle", description: "Default state" },
            ],
        }
    }

    fn has_animation(&self) -> bool {
        matches!(self,
            PyrotechnicType::Candle | PyrotechnicType::Cannon | PyrotechnicType::LavaLamp |
            PyrotechnicType::RemoteControlBomb | PyrotechnicType::Flashlight
        )
    }

    fn is_resizable(&self) -> bool {
        false
    }

    fn is_flippable(&self) -> bool {
        matches!(self,
            PyrotechnicType::MagnifyingGlass | PyrotechnicType::Flashlight | PyrotechnicType::Cannon
        )
    }

    fn destructible_by_dynamite(&self) -> bool {
        false
    }

    fn can_be_ramp(&self) -> bool {
        false
    }

    fn has_rope_point(&self) -> bool {
        false
    }

    fn requires_power(&self) -> bool {
        false
    }

    fn provides_power(&self) -> bool {
        false
    }
}

} // verus!
