//! Electrical parts: power sources and powered devices.
use vstd::prelude::*;

use crate::parts::{PartDef, StateDef};
use crate::render::cells::{place_centered, CellRect, Glyph};
use crate::render::text_chars::{BLUE, GRAY, RED, SILVER, WHITE, YELLOW};

verus! {

#[derive(Debug, Clone, Copy, PartialEq, Eq, Structural)]
pub enum ElectricalType {
    Generator,
    ElectricalOutlet,
    SwitchOutlet,
    SolarPanel,
    LaserActivatedPlug,
    ElectricFan,
    ElectricMotor,
    Toaster,
    CanOpener,
    ElectricMixer,
}

impl ElectricalType {
    /// Position of the variant in the declaration of the enum.
    pub open spec fn variant_index(&self) -> int {
        match self {
            ElectricalType::Generator => 0,
            ElectricalType::ElectricalOutlet => 1,
            ElectricalType::SwitchOutlet => 2,
            ElectricalType::SolarPanel => 3,
            ElectricalType::LaserActivatedPlug => 4,
            ElectricalType::ElectricFan => 5,
            ElectricalType::ElectricMotor => 6,
            ElectricalType::Toaster => 7,
            ElectricalType::CanOpener => 8,
            ElectricalType::ElectricMixer => 9,
        }
    }}

impl PartDef for ElectricalType {
    open spec fn name_text(&self) -> Seq<char> {
        match self {
            ElectricalType::Generator => "Generator"@,
            ElectricalType::ElectricalOutlet => "Electrical Outlet"@,
            ElectricalType::SwitchOutlet => "Switch Outlet"@,
            ElectricalType::SolarPanel => "Solar Panel"@,
            ElectricalType::LaserActivatedPlug => "Laser-Activated Plug"@,
            ElectricalType::ElectricFan => "Electric Fan"@,
            ElectricalType::ElectricMotor => "Electric Motor"@,
            ElectricalType::Toaster => "Toaster"@,
            ElectricalType::CanOpener => "Can Opener"@,
            ElectricalType::ElectricMixer => "Electric Mixer"@,
        }
    }

    open spec fn description_text(&self) -> Seq<char> {
        match self {
            ElectricalType::Generator => "Spinning-part driven; has outlet (2 sockets)"@,
            ElectricalType::ElectricalOutlet => "Always-on power; 2 sockets; no input needed"@,
            ElectricalType::SwitchOutlet => "Toggled by falling object; flippable orientation"@,
            ElectricalType::SolarPanel => "Powered by light source within ~80px line-of-sight"@,
            ElectricalType::LaserActivatedPlug => "Color-programmable; powered by matching laser"@,
            ElectricalType::ElectricFan => "Directional airflow ~120px range; requires power"@,
            ElectricalType::ElectricMotor => "Continuous rotation when powered; drives belts"@,
            ElectricalType::Toaster => "Launches 2 toast at ~600 px/s after delay"@,
            ElectricalType::CanOpener => "Powered mechanical opener"@,
            ElectricalType::ElectricMixer => "Rotating beaters; drives belts when powered"@,
        }
    }

    open spec fn category_text(&self) -> Seq<char> {
        "Electrical"@
    }

    open spec fn size_px(&self) -> (u32, u32) {
        match self {
            ElectricalType::Generator => (32, 32),
            ElectricalType::ElectricalOutlet => (16, 24),
            ElectricalType::SwitchOutlet => (16, 32),
            ElectricalType::SolarPanel => (32, 24),
            ElectricalType::LaserActivatedPlug => (16, 24),
            ElectricalType::ElectricFan => (24, 24),
            ElectricalType::ElectricMotor => (20, 20),
            ElectricalType::Toaster => (24, 20),
            ElectricalType::CanOpener => (20, 16),
            ElectricalType::ElectricMixer => (20, 24),
        }
    }

    open spec fn icon_glyph(&self) -> char {
        match self {
            ElectricalType::Generator => '\u{26A1}',
            ElectricalType::ElectricalOutlet | ElectricalType::SwitchOutlet => '\u{25AA}',
            ElectricalType::SolarPanel => '\u{25A6}',
            ElectricalType::LaserActivatedPlug => '\u{25C9}',
            ElectricalType::ElectricFan => '\u{274A}',
            ElectricalType::ElectricMotor => '\u{2299}',
            ElectricalType::Toaster => '\u{25AC}',
            ElectricalType::CanOpener => '\u{22A1}',
            ElectricalType::ElectricMixer => '\u{229B}',
        }
    }

    open spec fn icon_rgb(&self) -> [u8; 3] {
        match self {
            ElectricalType::Generator => YELLOW,
            ElectricalType::ElectricalOutlet | ElectricalType::SwitchOutlet => WHITE,
            ElectricalType::SolarPanel => BLUE,
            ElectricalType::LaserActivatedPlug => RED,
            ElectricalType::ElectricFan => BLUE,
            ElectricalType::ElectricMotor => GRAY,
            ElectricalType::Toaster | ElectricalType::CanOpener | ElectricalType::ElectricMixer => SILVER,
        }
    }

    open spec fn text_char(&self, flipped: bool) -> char {
        self.icon_glyph()
    }

    open spec fn state_table(&self) -> Seq<(Seq<char>, Seq<char>)> {
        match self {
            ElectricalType::Generator => seq![
                ("Unpowered"@, "Not being driven by a spinning part"@),
                ("Generating"@, "Driven — providing power to outlet"@),
            ],
            ElectricalType::ElectricalOutlet => seq![
                ("On"@, "Always providing power"@),
            ],
            ElectricalType::SwitchOutlet => seq![
                ("Off"@, "Switch in original position"@),
                ("On"@, "Toggled by falling object — providing power"@),
            ],
            ElectricalType::SolarPanel => seq![
                ("Dark"@, "No light source within range"@),
                ("Powered"@, "Light source within ~80px, line-of-sight"@),
            ],
            ElectricalType::LaserActivatedPlug => seq![
                ("Inactive"@, "Not receiving correct laser color"@),
                ("Active"@, "Matching laser hitting sensor"@),
            ],
            ElectricalType::ElectricFan | ElectricalType::ElectricMotor |
            ElectricalType::ElectricMixer | ElectricalType::CanOpener => seq![
                ("Off"@, "Unpowered — static"@),
                ("On"@, "Powered — operating"@),
            ],
            ElectricalType::Toaster => seq![
                ("Off"@, "Unpowered"@),
                ("Heating"@, "Powered — countdown to launch"@),
                ("Popped"@, "Toast launched at ~600 px/s"@),
            ],
        }
    }

    open spec fn animated(&self) -> bool {
        matches!(self, ElectricalType::Generator | ElectricalType::ElectricFan | ElectricalType::ElectricMotor | ElectricalType::ElectricMixer)
    }

    open spec fn resizable(&self) -> bool {
        false
    }

    open spec fn flippable(&self) -> bool {
        matches!(self, ElectricalType::ElectricFan | ElectricalType::ElectricMotor | ElectricalType::SwitchOutlet)
    }

    open spec fn dynamite_destructible(&self) -> bool {
        false
    }

    open spec fn ramp_capable(&self) -> bool {
        matches!(self, ElectricalType::ElectricFan | ElectricalType::ElectricMotor)
    }

    open spec fn rope_attachable(&self) -> bool {
        false
    }

    open spec fn power_consumer(&self) -> bool {
        matches!(self, ElectricalType::ElectricFan | ElectricalType::ElectricMotor | ElectricalType::Toaster | ElectricalType::CanOpener | ElectricalType::ElectricMixer)
    }

    open spec fn power_source(&self) -> bool {
        matches!(self, ElectricalType::Generator | ElectricalType::ElectricalOutlet | ElectricalType::SwitchOutlet | ElectricalType::SolarPanel | ElectricalType::LaserActivatedPlug)
    }

    fn name(&self) -> &'static str {
        match self {
            ElectricalType::Generator => "Generator",
            ElectricalType::ElectricalOutlet => "Electrical Outlet",
            ElectricalType::SwitchOutlet => "Switch Outlet",
            ElectricalType::SolarPanel => "Solar Panel",
            ElectricalType::LaserActivatedPlug => "Laser-Activated Plug",
            ElectricalType::ElectricFan => "Electric Fan",
            ElectricalType::ElectricMotor => "Electric Motor",
            ElectricalType::Toaster => "Toaster",
            ElectricalType::CanOpener => "Can Opener",
            ElectricalType::ElectricMixer => "Electric Mixer",
        }
    }

    fn description(&self) -> &'static str {
        match self {
            ElectricalType::Generator => "Spinning-part driven; has outlet (2 sockets)",
            ElectricalType::ElectricalOutlet => "Always-on power; 2 sockets; no input needed",
            ElectricalType::SwitchOutlet => "Toggled by falling object; flippable orientation",
            ElectricalType::SolarPanel => "Powered by light source within ~80px line-of-sight",
            ElectricalType::LaserActivatedPlug => "Color-programmable; powered by matching laser",
            ElectricalType::ElectricFan => "Directional airflow ~120px range; requires power",
            ElectricalType::ElectricMotor => "Continuous rotation when powered; drives belts",
            ElectricalType::Toaster => "Launches 2 toast at ~600 px/s after delay",
            ElectricalType::CanOpener => "Powered mechanical opener",
            ElectricalType::ElectricMixer => "Rotating beaters; drives belts when powered",
        }
    }

    fn category(&self) -> &'static str {
        "Electrical"
    }

    fn default_size(&self) -> (u32, u32) {
        match self {
            ElectricalType::Generator => (32, 32),
            ElectricalType::ElectricalOutlet => (16, 24),
            ElectricalType::SwitchOutlet => (16, 32),
            ElectricalType::SolarPanel => (32, 24),
            ElectricalType::LaserActivatedPlug => (16, 24),
            ElectricalType::ElectricFan => (24, 24),
            ElectricalType::ElectricMotor => (20, 20),
            ElectricalType::Toaster => (24, 20),
            ElectricalType::CanOpener => (20, 16),
            ElectricalType::ElectricMixer => (20, 24),
        }
    }

    fn icon_char(&self) -> char {
        match self {
            ElectricalType::Generator => '\u{26A1}',
            ElectricalType::ElectricalOutlet | ElectricalType::SwitchOutlet => '\u{25AA}',
            ElectricalType::SolarPanel => '\u{25A6}',
            ElectricalType::LaserActivatedPlug => '\u{25C9}',
            ElectricalType::ElectricFan => '\u{274A}',
            ElectricalType::ElectricMotor => '\u{2299}',
            ElectricalType::Toaster => '\u{25AC}',
            ElectricalType::CanOpener => '\u{22A1}',
            ElectricalType::ElectricMixer => '\u{229B}',
        }
    }

    fn icon_color(&self) -> [u8; 3] {
        match self {
            ElectricalType::Generator => YELLOW,
            ElectricalType::ElectricalOutlet | ElectricalType::SwitchOutlet => WHITE,
            ElectricalType::SolarPanel => BLUE,
            ElectricalType::LaserActivatedPlug => RED,
            ElectricalType::ElectricFan => BLUE,
            ElectricalType::ElectricMotor => GRAY,
            ElectricalType::Toaster | ElectricalType::CanOpener | ElectricalType::ElectricMixer => SILVER,
        }
    }

    fn text_glyph(&self, area: CellRect, _flipped: bool) -> Option<Glyph> {
        place_centered(area, self.icon_char(), self.icon_color())
    }

    fn states(&self) -> Vec<StateDef> {
        match self {
            ElectricalType::Generator => vec![
                StateDef { name: "Unpowered", description: "Not being driven by a spinning part" },
                StateDef { name: "Generating", description: "Driven — providing power to outlet" },
            ],
            ElectricalType::ElectricalOutlet => vec![
                StateDef { name: "On", description: "Always providing power" },
            ],
            ElectricalType::SwitchOutlet => vec![
                StateDef { name: "Off", description: "Switch in original position" },
                StateDef { name: "On", description: "Toggled by falling object — providing power" },
            ],
            ElectricalType::SolarPanel => vec![
                StateDef { name: "Dark", description: "No light source within range" },
                StateDef { name: "Powered", description: "Light source within ~80px, line-of-sight" },
            ],
            ElectricalType::LaserActivatedPlug => vec![
                StateDef { name: "Inactive", description: "Not receiving correct laser color" },
                StateDef { name: "Active", description: "Matching laser hitting sensor" },
            ],
            ElectricalType::ElectricFan | ElectricalType::ElectricMotor |
            ElectricalType::ElectricMixer | ElectricalType::CanOpener => vec![
                StateDef { name: "Off", description: "Unpowered — static" },
                StateDef { name: "On", description: "Powered — operating" },
            ],
            ElectricalType::Toaster => vec![
                StateDef { name: "Off", description: "Unpowered" },
                StateDef { name: "Heating", description: "Powered — countdown to launch" },
                StateDef { name: "Popped", description: "Toast launched at ~600 px/s" },
            ],
        }
    }

    fn has_animation(&self) -> bool {
        matches!(self, ElectricalType::Generator | ElectricalType::ElectricFan | ElectricalType::ElectricMotor | ElectricalType::ElectricMixer)
    }

    fn is_resizable(&self) -> bool {
        false
    }

    fn is_flippable(&self) -> bool {
        matches!(self, ElectricalType::ElectricFan | ElectricalType::ElectricMotor | ElectricalType::SwitchOutlet)
    }

    fn destructible_by_dynamite(&self) -> bool {
        false
    }

    fn can_be_ramp(&self) -> bool {
        matches!(self, ElectricalType::ElectricFan | ElectricalType::ElectricMotor)
    }

    fn has_rope_point(&self) -> bool {
        false
    }

    fn requires_power(&self) -> bool {
        matches!(self, ElectricalType::ElectricFan | ElectricalType::ElectricMotor | ElectricalType::Toaster | ElectricalType::CanOpener | ElectricalType::ElectricMixer)
    }

    fn provides_power(&self) -> bool {
        matches!(self, ElectricalType::Generator | ElectricalType::ElectricalOutlet | ElectricalType::SwitchOutlet | ElectricalType::SolarPanel | ElectricalType::LaserActivatedPlug)
    }
}

} // verus!
