//! Gadgets: triggers, containers, balloons and decorations.
use vstd::prelude::*;

use crate::parts::{PartDef, StateDef};
use crate::render::cells::{place_centered, CellRect, Glyph};
use crate::render::text_chars::{BLUE, BROWN, CYAN, GRAY, GREEN, PURPLE, RED, SILVER, STEEL, TAN, WHITE};

verus! {

#[derive(Debug, Clone, Copy, PartialEq, Eq, Structural)]
pub enum GadgetType {
    SuperPhazer,
    EggTimer,
    EyeHook,
    BoatCleat,
    Gun,
    AntiGravityPad,
    SantaLamp,
    LaundryBasket,
    Bucket,
    LeakyBucket,
    Balloon,
    HotAirBalloon,
    GlassBox,
    WoodenBox,
    WickerBox,
    MetalBox,
    CardboardBox,
    ColorBlock,
    MessageComputer,
    Teapot,
}

impl GadgetType {
    /// Position of the variant in the declaration of the enum.
    pub open spec fn variant_index(&self) -> int {
        match self {
            GadgetType::SuperPhazer => 0,
            GadgetType::EggTimer => 1,
            GadgetType::EyeHook => 2,
            GadgetType::BoatCleat => 3,
            GadgetType::Gun => 4,
            GadgetType::AntiGravityPad => 5,
            GadgetType::SantaLamp => 6,
            GadgetType::LaundryBasket => 7,
            GadgetType::Bucket => 8,
            GadgetType::LeakyBucket => 9,
            GadgetType::Balloon => 10,
            GadgetType::HotAirBalloon => 11,
            GadgetType::GlassBox => 12,
            GadgetType::WoodenBox => 13,
            GadgetType::WickerBox => 14,
            GadgetType::MetalBox => 15,
            GadgetType::CardboardBox => 16,
            GadgetType::ColorBlock => 17,
            GadgetType::MessageComputer => 18,
            GadgetType::Teapot => 19,
        }
    }}

impl PartDef for GadgetType {
    open spec fn name_text(&self) -> Seq<char> {
        match self {
            GadgetType::SuperPhazer => "Captain Z Super Phazer"@,
            GadgetType::EggTimer => "Egg Timer"@,
            GadgetType::EyeHook => "Eye Hook"@,
            GadgetType::BoatCleat => "Boat Cleat"@,
            GadgetType::Gun => "Gun (Revolver)"@,
            GadgetType::AntiGravityPad => "Anti-Gravity Pad"@,
            GadgetType::SantaLamp => "Santa Lamp"@,
            GadgetType::LaundryBasket => "Laundry Basket"@,
            GadgetType::Bucket => "Bucket"@,
            GadgetType::LeakyBucket => "Leaky Bucket"@,
            GadgetType::Balloon => "Balloon"@,
            GadgetType::HotAirBalloon => "Hot Air Balloon"@,
            GadgetType::GlassBox => "Glass Box"@,
            GadgetType::WoodenBox => "Wooden Box"@,
            GadgetType::WickerBox => "Wicker Box"@,
            GadgetType::MetalBox => "Metal Box"@,
            GadgetType::CardboardBox => "Cardboard Box"@,
            GadgetType::ColorBlock => "Color Block"@,
            GadgetType::MessageComputer => "Message Computer"@,
            GadgetType::Teapot => "Teapot"@,
        }
    }

    open spec fn description_text(&self) -> Seq<char> {
        match self {
            GadgetType::SuperPhazer => "1-5 programmable blasts at ~1800 px/s; rope attachment"@,
            GadgetType::EggTimer => "Programmable delay (1-10s); spring-loaded arm ~400 px/s"@,
            GadgetType::EyeHook => "Fixed rope attachment/anchor point"@,
            GadgetType::BoatCleat => "Immovable rope anchor"@,
            GadgetType::Gun => "Rope-triggered; hitscan bullet; single shot; body is ramp"@,
            GadgetType::AntiGravityPad => "Reverses gravity in ~16px zone above surface"@,
            GadgetType::SantaLamp => "Decorative; provides ambient light"@,
            GadgetType::LaundryBasket => "Mass 1.2; dynamic; traps animals when dropped; rope point"@,
            GadgetType::Bucket => "Mass 0.5; dynamic; catches objects (mass increases); rope point"@,
            GadgetType::LeakyBucket => "Mass 1.5→0.3; leak rates: slow/med/fast; for pulley puzzles"@,
            GadgetType::Balloon => "Buoyant; poppable by gear/scissors/tack/dynamite/candle/laser/gun"@,
            GadgetType::HotAirBalloon => "Rises when heated; carries objects"@,
            GadgetType::GlassBox => "Mass 0.3; shatters on impact > 300 px/s; holds small objects"@,
            GadgetType::WoodenBox => "Mass 0.5; destructible by dynamite; holds small objects"@,
            GadgetType::WickerBox => "Mass 0.2; indestructible; holds small objects"@,
            GadgetType::MetalBox => "Mass 1.0; indestructible; holds small objects"@,
            GadgetType::CardboardBox => "Mass 0.1; crumples on any significant impact; holds small objects"@,
            GadgetType::ColorBlock => "Decorative 16x16 block; 44 color options; solid collision"@,
            GadgetType::MessageComputer => "Displays single character (A-Z, 0-9, symbols); decorative"@,
            GadgetType::Teapot => "Dynamic; produces steam up-left/up-right when heated; recoil; spins windmills"@,
        }
    }

    open spec fn category_text(&self) -> Seq<char> {
        "Gadgets"@
    }

    open spec fn size_px(&self) -> (u32, u32) {
        match self {
            GadgetType::SuperPhazer => (32, 16),
            GadgetType::EggTimer => (16, 20),
            GadgetType::EyeHook => (8, 12),
            GadgetType::BoatCleat => (12, 8),
            GadgetType::Gun => (28, 20),
            GadgetType::AntiGravityPad => (32, 8),
            GadgetType::SantaLamp => (20, 28),
            GadgetType::LaundryBasket => (28, 32),
            GadgetType::Bucket => (20, 20),
            GadgetType::LeakyBucket => (20, 20),
            GadgetType::Balloon => (20, 28),
            GadgetType::HotAirBalloon => (32, 40),
            GadgetType::GlassBox => (24, 24),
            GadgetType::WoodenBox => (28, 28),
            GadgetType::WickerBox => (24, 24),
            GadgetType::MetalBox => (28, 28),
            GadgetType::CardboardBox => (24, 24),
            GadgetType::ColorBlock => (16, 16),
            GadgetType::MessageComputer => (16, 24),
            GadgetType::Teapot => (24, 20),
        }
    }

    open spec fn icon_glyph(&self) -> char {
        match self {
            GadgetType::SuperPhazer | GadgetType::Gun => '\u{25BA}',
            GadgetType::EggTimer => '\u{231B}',
            GadgetType::EyeHook => '\u{2310}',
            GadgetType::BoatCleat => '\u{2229}',
            GadgetType::AntiGravityPad => '\u{2261}',
            GadgetType::SantaLamp => '\u{2666}',
            GadgetType::LaundryBasket => '\u{2554}',
            GadgetType::Bucket | GadgetType::LeakyBucket => 'U',
            GadgetType::Balloon => '\u{25CB}',
            GadgetType::HotAirBalloon => '\u{25EF}',
            GadgetType::GlassBox => '\u{25A1}',
            GadgetType::WoodenBox | GadgetType::WickerBox | GadgetType::CardboardBox => '\u{25A0}',
            GadgetType::MetalBox => '\u{25A3}',
            GadgetType::ColorBlock => '\u{2588}',
            GadgetType::MessageComputer => '\u{23CD}',
            GadgetType::Teapot => '\u{2615}',
        }
    }

    open spec fn icon_rgb(&self) -> [u8; 3] {
        match self {
            GadgetType::SuperPhazer => CYAN,
            GadgetType::EggTimer => TAN,
            GadgetType::EyeHook | GadgetType::BoatCleat | GadgetType::Bucket => SILVER,
            GadgetType::Gun => GRAY,
            GadgetType::AntiGravityPad => PURPLE,
            GadgetType::SantaLamp | GadgetType::HotAirBalloon => RED,
            GadgetType::LaundryBasket => BROWN,
            GadgetType::LeakyBucket => GRAY,
            GadgetType::Balloon => BLUE,
            GadgetType::GlassBox => [180, 220, 240],
            GadgetType::WoodenBox => BROWN,
            GadgetType::WickerBox => TAN,
            GadgetType::MetalBox => STEEL,
            GadgetType::CardboardBox => [190, 160, 110],
            GadgetType::ColorBlock => WHITE,
            GadgetType::MessageComputer => GREEN,
            GadgetType::Teapot => SILVER,
        }
    }

    open spec fn text_char(&self, flipped: bool) -> char {
        self.icon_glyph()
    }

    open spec fn state_table(&self) -> Seq<(Seq<char>, Seq<char>)> {
        match self {
            GadgetType::SuperPhazer => seq![
                ("Ready"@, "Loaded with shots"@),
                ("Firing"@, "Emitting blast at ~1800 px/s"@),
                ("Empty"@, "All shots expended"@),
            ],
            GadgetType::EggTimer => seq![
                ("Ready"@, "Timer not started"@),
                ("Counting"@, "Countdown in progress"@),
                ("Triggered"@, "Spring arm deployed at ~400 px/s"@),
            ],
            GadgetType::Gun => seq![
                ("Loaded"@, "Ready to fire"@),
                ("Fired"@, "Rope-triggered; hitscan bullet"@),
            ],
            GadgetType::Balloon => seq![
                ("Inflated"@, "Rising due to buoyancy"@),
                ("Popped"@, "Destroyed by gear/scissors/tack/dynamite/candle/laser/gun"@),
            ],
            GadgetType::HotAirBalloon => seq![
                ("Cold"@, "Stationary on ground"@),
                ("Heating"@, "Heat source applied — beginning to rise"@),
                ("Rising"@, "Airborne — carrying objects"@),
            ],
            GadgetType::LeakyBucket => seq![
                ("Full"@, "Mass 1.5 — leaking"@),
                ("Draining"@, "Losing mass at configured rate"@),
                ("Empty"@, "Mass 0.3 — no more drip"@),
            ],
            GadgetType::LaundryBasket => seq![
                ("Open"@, "Ready to trap"@),
                ("Trapping"@, "Animal caught inside"@),
            ],
            GadgetType::Bucket => seq![
                ("Empty"@, "No contents"@),
                ("Filled"@, "Object(s) caught — mass increased"@),
            ],
            GadgetType::GlassBox => seq![
                ("Intact"@, "Solid container"@),
                ("Shattered"@, "Destroyed by impact > 300 px/s"@),
            ],
            GadgetType::CardboardBox => seq![
                ("Intact"@, "Solid container"@),
                ("Crumpled"@, "Destroyed by any significant impact"@),
            ],
            GadgetType::WoodenBox => seq![
                ("Intact"@, "Solid container"@),
                ("Destroyed"@, "Destroyed by dynamite"@),
            ],
            GadgetType::Teapot => seq![
                ("Cold"@, "No heat source — idle"@),
                ("Heating"@, "Heat applied — water warming"@),
                ("Boiling"@, "Producing steam; recoil pushes teapot backward"@),
            ],
            _ => seq![
                ("Idle"@, "Default state"@),
            ],
        }
    }

    open spec fn animated(&self) -> bool {
        matches!(self, GadgetType::EggTimer | GadgetType::AntiGravityPad | GadgetType::LeakyBucket | GadgetType::Teapot)
    }

    open spec fn resizable(&self) -> bool {
        false
    }

    open spec fn flippable(&self) -> bool {
        matches!(self, GadgetType::SuperPhazer | GadgetType::Gun | GadgetType::Teapot)
    }

    open spec fn dynamite_destructible(&self) -> bool {
        matches!(self, GadgetType::WoodenBox)
    }

    open spec fn ramp_capable(&self) -> bool {
        matches!(self, GadgetType::Gun)
    }

    open spec fn rope_attachable(&self) -> bool {
        matches!(self, GadgetType::EyeHook | GadgetType::BoatCleat | GadgetType::LaundryBasket | GadgetType::Bucket | GadgetType::LeakyBucket | GadgetType::SuperPhazer | GadgetType::Gun)
    }

    open spec fn power_consumer(&self) -> bool {
        false
    }

    open spec fn power_source(&self) -> bool {
        false
    }

    fn name(&self) -> &'static str {
        match self {
            GadgetType::SuperPhazer => "Captain Z Super Phazer",
            GadgetType::EggTimer => "Egg Timer",
            GadgetType::EyeHook => "Eye Hook",
            GadgetType::BoatCleat => "Boat Cleat",
            GadgetType::Gun => "Gun (Revolver)",
            GadgetType::AntiGravityPad => "Anti-Gravity Pad",
            GadgetType::SantaLamp => "Santa Lamp",
            GadgetType::LaundryBasket => "Laundry Basket",
            GadgetType::Bucket => "Bucket",
            GadgetType::LeakyBucket => "Leaky Bucket",
            GadgetType::Balloon => "Balloon",
            GadgetType::HotAirBalloon => "Hot Air Balloon",
            GadgetType::GlassBox => "Glass Box",
            GadgetType::WoodenBox => "Wooden Box",
            GadgetType::WickerBox => "Wicker Box",
            GadgetType::MetalBox => "Metal Box",
            GadgetType::CardboardBox => "Cardboard Box",
            GadgetType::ColorBlock => "Color Block",
            GadgetType::MessageComputer => "Message Computer",
            GadgetType::Teapot => "Teapot",
        }
    }

    fn description(&self) -> &'static str {
        match self {
            GadgetType::SuperPhazer => "1-5 programmable blasts at ~1800 px/s; rope attachment",
            GadgetType::EggTimer => "Programmable delay (1-10s); spring-loaded arm ~400 px/s",
            GadgetType::EyeHook => "Fixed rope attachment/anchor point",
            GadgetType::BoatCleat => "Immovable rope anchor",
            GadgetType::Gun => "Rope-triggered; hitscan bullet; single shot; body is ramp",
            GadgetType::AntiGravityPad => "Reverses gravity in ~16px zone above surface",
            GadgetType::SantaLamp => "Decorative; provides ambient light",
            GadgetType::LaundryBasket => "Mass 1.2; dynamic; traps animals when dropped; rope point",
            GadgetType::Bucket => "Mass 0.5; dynamic; catches objects (mass increases); rope point",
            GadgetType::LeakyBucket => "Mass 1.5→0.3; leak rates: slow/med/fast; for pulley puzzles",
            GadgetType::Balloon => "Buoyant; poppable by gear/scissors/tack/dynamite/candle/laser/gun",
            GadgetType::HotAirBalloon => "Rises when heated; carries objects",
            GadgetType::GlassBox => "Mass 0.3; shatters on impact > 300 px/s; holds small objects",
            GadgetType::WoodenBox => "Mass 0.5; destructible by dynamite; holds small objects",
            GadgetType::WickerBox => "Mass 0.2; indestructible; holds small objects",
            GadgetType::MetalBox => "Mass 1.0; indestructible; holds small objects",
            GadgetType::CardboardBox => "Mass 0.1; crumples on any significant impact; holds small objects",
            GadgetType::ColorBlock => "Decorative 16x16 block; 44 color options; solid collision",
            GadgetType::MessageComputer => "Displays single character (A-Z, 0-9, symbols); decorative",
            GadgetType::Teapot => "Dynamic; produces steam up-left/up-right when heated; recoil; spins windmills",
        }
    }

    fn category(&self) -> &'static str {
        "Gadgets"
    }

    fn default_size(&self) -> (u32, u32) {
        match self {
            GadgetType::SuperPhazer => (32, 16),
            GadgetType::EggTimer => (16, 20),
            GadgetType::EyeHook => (8, 12),
            GadgetType::BoatCleat => (12, 8),
            GadgetType::Gun => (28, 20),
            GadgetType::AntiGravityPad => (32, 8),
            GadgetType::SantaLamp => (20, 28),
            GadgetType::LaundryBasket => (28, 32),
            GadgetType::Bucket => (20, 20),
            GadgetType::LeakyBucket => (20, 20),
            GadgetType::Balloon => (20, 28),
            GadgetType::HotAirBalloon => (32, 40),
            GadgetType::GlassBox => (24, 24),
            GadgetType::WoodenBox => (28, 28),
            GadgetType::WickerBox => (24, 24),
            GadgetType::MetalBox => (28, 28),
            GadgetType::CardboardBox => (24, 24),
            GadgetType::ColorBlock => (16, 16),
            GadgetType::MessageComputer => (16, 24),
            GadgetType::Teapot => (24, 20),
        }
    }

    fn icon_char(&self) -> char {
        match self {
            GadgetType::SuperPhazer | GadgetType::Gun => '\u{25BA}',
            GadgetType::EggTimer => '\u{231B}',
            GadgetType::EyeHook => '\u{2310}',
            GadgetType::BoatCleat => '\u{2229}',
            GadgetType::AntiGravityPad => '\u{2261}',
            GadgetType::SantaLamp => '\u{2666}',
            GadgetType::LaundryBasket => '\u{2554}',
            GadgetType::Bucket | GadgetType::LeakyBucket => 'U',
            GadgetType::Balloon => '\u{25CB}',
            GadgetType::HotAirBalloon => '\u{25EF}',
            GadgetType::GlassBox => '\u{25A1}',
            GadgetType::WoodenBox | GadgetType::WickerBox | GadgetType::CardboardBox => '\u{25A0}',
            GadgetType::MetalBox => '\u{25A3}',
            GadgetType::ColorBlock => '\u{2588}',
            GadgetType::MessageComputer => '\u{23CD}',
            GadgetType::Teapot => '\u{2615}',
        }
    }

    fn icon_color(&self) -> [u8; 3] {
        match self {
            GadgetType::SuperPhazer => CYAN,
            GadgetType::EggTimer => TAN,
            GadgetType::EyeHook | GadgetType::BoatCleat | GadgetType::Bucket => SILVER,
            GadgetType::Gun => GRAY,
            GadgetType::AntiGravityPad => PURPLE,
            GadgetType::SantaLamp | GadgetType::HotAirBalloon => RED,
            GadgetType::LaundryBasket => BROWN,
            GadgetType::LeakyBucket => GRAY,
            GadgetType::Balloon => BLUE,
            GadgetType::GlassBox => [180, 220, 240],
            GadgetType::WoodenBox => BROWN,
            GadgetType::WickerBox => TAN,
            GadgetType::MetalBox => STEEL,
            GadgetType::CardboardBox => [190, 160, 110],
            GadgetType::ColorBlock => WHITE,
            GadgetType::MessageComputer => GREEN,
            GadgetType::Teapot => SILVER,
        }
    }

    fn text_glyph(&self, area: CellRect, _flipped: bool) -> Option<Glyph> {
        place_centered(area, self.icon_char(), self.icon_color())
    }

    fn states(&self) -> Vec<StateDef> {
        match self {
            GadgetType::SuperPhazer => vec![
                StateDef { name: "Ready", description: "Loaded with shots" },
                StateDef { name: "Firing", description: "Emitting blast at ~1800 px/s" },
                StateDef { name: "Empty", description: "All shots expended" },
            ],
            GadgetType::EggTimer => vec![
                StateDef { name: "Ready", description: "Timer not started" },
                StateDef { name: "Counting", description: "Countdown in progress" },
                StateDef { name: "Triggered", description: "Spring arm deployed at ~400 px/s" },
            ],
            GadgetType::Gun => vec![
                StateDef { name: "Loaded", description: "Ready to fire" },
                StateDef { name: "Fired", description: "Rope-triggered; hitscan bullet" },
            ],
            GadgetType::Balloon => vec![
                StateDef { name: "Inflated", description: "Rising due to buoyancy" },
                StateDef { name: "Popped", description: "Destroyed by gear/scissors/tack/dynamite/candle/laser/gun" },
            ],
            GadgetType::HotAirBalloon => vec![
                StateDef { name: "Cold", description: "Stationary on ground" },
                StateDef { name: "Heating", description: "Heat source applied — beginning to rise" },
                StateDef { name: "Rising", description: "Airborne — carrying objects" },
            ],
            GadgetType::LeakyBucket => vec![
                StateDef { name: "Full", description: "Mass 1.5 — leaking" },
                StateDef { name: "Draining", description: "Losing mass at configured rate" },
                StateDef { name: "Empty", description: "Mass 0.3 — no more drip" },
            ],
            GadgetType::LaundryBasket => vec![
                StateDef { name: "Open", description: "Ready to trap" },
                StateDef { name: "Trapping", description: "Animal caught inside" },
            ],
            GadgetType::Bucket => vec![
                StateDef { name: "Empty", description: "No contents" },
                StateDef { name: "Filled", description: "Object(s) caught — mass increased" },
            ],
            GadgetType::GlassBox => vec![
                StateDef { name: "Intact", description: "Solid container" },
                StateDef { name: "Shattered", description: "Destroyed by impact > 300 px/s" },
            ],
            GadgetType::CardboardBox => vec![
                StateDef { name: "Intact", description: "Solid container" },
                StateDef { name: "Crumpled", description: "Destroyed by any significant impact" },
            ],
            GadgetType::WoodenBox => vec![
                StateDef { name: "Intact", description: "Solid container" },
                StateDef { name: "Destroyed", description: "Destroyed by dynamite" },
            ],
            GadgetType::Teapot => vec![
                StateDef { name: "Cold", description: "No heat source — idle" },
                StateDef { name: "Heating", description: "Heat applied — water warming" },
                StateDef { name: "Boiling", description: "Producing steam; recoil pushes teapot backward" },
            ],
            _ => vec![
                StateDef { name: "Idle", description: "Default state" },
            ],
        }
    }

    fn has_animation(&self) -> bool {
        matches!(self, GadgetType::EggTimer | GadgetType::AntiGravityPad | GadgetType::LeakyBucket | GadgetType::Teapot)
    }

    fn is_resizable(&self) -> bool {
        false
    }

    fn is_flippable(&self) -> bool {
        matches!(self, GadgetType::SuperPhazer | GadgetType::Gun | GadgetType::Teapot)
    }

    fn destructible_by_dynamite(&self) -> bool {
        matches!(self, GadgetType::WoodenBox)
    }

    fn can_be_ramp(&self) -> bool {
        matches!(self, GadgetType::Gun)
    }

    fn has_rope_point(&self) -> bool {
        matches!(self, GadgetType::EyeHook | GadgetType::BoatCleat | GadgetType::LaundryBasket | GadgetType::Bucket | GadgetType::LeakyBucket | GadgetType::SuperPhazer | GadgetType::Gun)
    }

    fn requires_power(&self) -> bool {
        false
    }

    fn provides_power(&self) -> bool {
        false
    }
}

/// RGB value of a Color Block color index (0-43); other indices are white.
pub open spec fn color_block_table(index: u8) -> [u8; 3] {
    match index {
            0 => [255, 0, 0],       1 => [0, 255, 0],       2 => [0, 0, 255],
            3 => [255, 255, 0],     4 => [255, 0, 255],      5 => [0, 255, 255],
            6 => [255, 128, 0],     7 => [128, 0, 255],      8 => [0, 128, 255],
            9 => [255, 128, 128],  10 => [128, 255, 128],   11 => [128, 128, 255],
           12 => [128, 0, 0],      13 => [0, 128, 0],       14 => [0, 0, 128],
           15 => [128, 128, 0],    16 => [128, 0, 128],     17 => [0, 128, 128],
           18 => [255, 255, 255],  19 => [220, 220, 220],   20 => [192, 192, 192],
           21 => [160, 160, 160],  22 => [128, 128, 128],   23 => [96, 96, 96],
           24 => [64, 64, 64],     25 => [32, 32, 32],      26 => [0, 0, 0],
           27 => [255, 200, 150],  28 => [200, 150, 100],   29 => [150, 100, 50],
           30 => [100, 50, 0],     31 => [255, 180, 180],   32 => [180, 255, 180],
           33 => [180, 180, 255],  34 => [255, 255, 180],   35 => [255, 180, 255],
           36 => [180, 255, 255],  37 => [200, 100, 50],    38 => [50, 200, 100],
           39 => [100, 50, 200],   40 => [200, 200, 100],   41 => [100, 200, 200],
           42 => [200, 100, 200],  43 => [150, 75, 0],
            _ => [255, 255, 255],
        }
}

/// Map a color index (0-43) to an RGB value for Color Block.
pub fn color_block_rgb(index: u8) -> (r: [u8; 3])
    ensures
        r == color_block_table(index),
{
    match index {
            0 => [255, 0, 0],       1 => [0, 255, 0],       2 => [0, 0, 255],
            3 => [255, 255, 0],     4 => [255, 0, 255],      5 => [0, 255, 255],
            6 => [255, 128, 0],     7 => [128, 0, 255],      8 => [0, 128, 255],
            9 => [255, 128, 128],  10 => [128, 255, 128],   11 => [128, 128, 255],
           12 => [128, 0, 0],      13 => [0, 128, 0],       14 => [0, 0, 128],
           15 => [128, 128, 0],    16 => [128, 0, 128],     17 => [0, 128, 128],
           18 => [255, 255, 255],  19 => [220, 220, 220],   20 => [192, 192, 192],
           21 => [160, 160, 160],  22 => [128, 128, 128],   23 => [96, 96, 96],
           24 => [64, 64, 64],     25 => [32, 32, 32],      26 => [0, 0, 0],
           27 => [255, 200, 150],  28 => [200, 150, 100],   29 => [150, 100, 50],
           30 => [100, 50, 0],     31 => [255, 180, 180],   32 => [180, 255, 180],
           33 => [180, 180, 255],  34 => [255, 255, 180],   35 => [255, 180, 255],
           36 => [180, 255, 255],  37 => [200, 100, 50],    38 => [50, 200, 100],
           39 => [100, 50, 200],   40 => [200, 200, 100],   41 => [100, 200, 200],
           42 => [200, 100, 200],  43 => [150, 75, 0],
            _ => [255, 255, 255],
        }
}

} // verus!
