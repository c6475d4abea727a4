//! Mechanical parts: gears, belts, springs and cutters.
use vstd::prelude::*;

use crate::parts::{PartDef, StateDef};
use crate::render::cells::{place_centered, CellRect, Glyph};
use crate::render::text_chars::{BLUE, BROWN, GRAY, GREEN, MAGENTA, RED, SILVER, YELLOW};

verus! {

#[derive(Debug, Clone, Copy, PartialEq, Eq, Structural)]
pub enum MechanicalType {
    Gear,
    Pulley,
    Belt,
    TeeterTotter,
    ConveyorBelt,
    Trampoline,
    JackInTheBox,
    Windmill,
    MandrillMotor,
    MouseExerciseWheel,
    TransRotoMatic,
    RotoTransConverter,
    TipsyTrailer,
    Scissors,
    HedgeTrimmers,
    TinSnips,
    BoxingGlove,
    VacuumCleaner,
    PinballBumper,
    Tack,
    Bellows,
}

impl MechanicalType {
    /// Position of the variant in the declaration of the enum.
    pub open spec fn variant_index(&self) -> int {
        match self {
            MechanicalType::Gear => 0,
            MechanicalType::Pulley => 1,
            MechanicalType::Belt => 2,
            MechanicalType::TeeterTotter => 3,
            MechanicalType::ConveyorBelt => 4,
            MechanicalType::Trampoline => 5,
            MechanicalType::JackInTheBox => 6,
            MechanicalType::Windmill => 7,
            MechanicalType::MandrillMotor => 8,
            MechanicalType::MouseExerciseWheel => 9,
            MechanicalType::TransRotoMatic => 10,
            MechanicalType::RotoTransConverter => 11,
            MechanicalType::TipsyTrailer => 12,
            MechanicalType::Scissors => 13,
            MechanicalType::HedgeTrimmers => 14,
            MechanicalType::TinSnips => 15,
            MechanicalType::BoxingGlove => 16,
            MechanicalType::VacuumCleaner => 17,
            MechanicalType::PinballBumper => 18,
            MechanicalType::Tack => 19,
            MechanicalType::Bellows => 20,
        }
    }}

impl PartDef for MechanicalType {
    open spec fn name_text(&self) -> Seq<char> {
        match self {
            MechanicalType::Gear => "Gear"@,
            MechanicalType::Pulley => "Pulley"@,
            MechanicalType::Belt => "Belt"@,
            MechanicalType::TeeterTotter => "Teeter-Totter"@,
            MechanicalType::ConveyorBelt => "Conveyor Belt"@,
            MechanicalType::Trampoline => "Trampoline"@,
            MechanicalType::JackInTheBox => "Jack-in-the-Box"@,
            MechanicalType::Windmill => "Windmill"@,
            MechanicalType::MandrillMotor => "Mandrill Motor"@,
            MechanicalType::MouseExerciseWheel => "Mouse Exercise Wheel"@,
            MechanicalType::TransRotoMatic => "Trans-Roto-Matic"@,
            MechanicalType::RotoTransConverter => "Roto-Trans-Converter"@,
            MechanicalType::TipsyTrailer => "Tipsy Trailer"@,
            MechanicalType::Scissors => "Scissors"@,
            MechanicalType::HedgeTrimmers => "Hedge Trimmers"@,
            MechanicalType::TinSnips => "Tin Snips"@,
            MechanicalType::BoxingGlove => "Boxing Glove"@,
            MechanicalType::VacuumCleaner => "Vacuum Cleaner"@,
            MechanicalType::PinballBumper => "Pinball Bumper"@,
            MechanicalType::Tack => "Tack"@,
            MechanicalType::Bellows => "Bike Pump (Bellows)"@,
        }
    }

    open spec fn description_text(&self) -> Seq<char> {
        match self {
            MechanicalType::Gear => "Interlocking cog; driven by belts/adjacent gears; pops balloons"@,
            MechanicalType::Pulley => "Frictionless rope redirection (max 8 per rope)"@,
            MechanicalType::Belt => "Connects two rotating parts; max 200px stretch; 1:1 speed"@,
            MechanicalType::TeeterTotter => "Seesaw: torque = force x distance from pivot"@,
            MechanicalType::ConveyorBelt => "Belt-driven surface; high friction (1.0)"@,
            MechanicalType::Trampoline => "Elasticity 1.2; bounces higher than fall; max 1500 px/s"@,
            MechanicalType::JackInTheBox => "Opens after ~3 rotations; catapult ~500 px/s"@,
            MechanicalType::Windmill => "Spins from air (fan/bellows/steam); drives belts"@,
            MechanicalType::MandrillMotor => "Monkey pedals when shade open; bonk = 2s stun"@,
            MechanicalType::MouseExerciseWheel => "Activates on nearby impact; mouse direction = spin"@,
            MechanicalType::TransRotoMatic => "Converts translational to rotational motion"@,
            MechanicalType::RotoTransConverter => "Converts rotational to translational motion"@,
            MechanicalType::TipsyTrailer => "Tilting platform on wheels"@,
            MechanicalType::Scissors => "Opens/closes on pressure; cuts rope, pops balloons"@,
            MechanicalType::HedgeTrimmers => "Always active; cuts rope on contact (NOT steel cable)"@,
            MechanicalType::TinSnips => "ONLY tool that cuts BOTH rope AND steel cable"@,
            MechanicalType::BoxingGlove => "Triggered punch at ~1200 px/s"@,
            MechanicalType::VacuumCleaner => "Requires power; sucks objects in ~60px radius"@,
            MechanicalType::PinballBumper => "Bounces objects away at ~800 px/s"@,
            MechanicalType::Tack => "Pops balloons on contact; forms walking surfaces"@,
            MechanicalType::Bellows => "Air burst when compressed; blows objects/spins windmills; flippable"@,
        }
    }

    open spec fn category_text(&self) -> Seq<char> {
        "Mechanical"@
    }

    open spec fn size_px(&self) -> (u32, u32) {
        match self {
            MechanicalType::Gear => (40, 40),
            MechanicalType::Pulley => (24, 24),
            MechanicalType::Belt => (64, 8),
            MechanicalType::TeeterTotter => (80, 16),
            MechanicalType::ConveyorBelt => (64, 16),
            MechanicalType::Trampoline => (48, 24),
            MechanicalType::JackInTheBox => (32, 32),
            MechanicalType::Windmill => (48, 48),
            MechanicalType::MandrillMotor => (48, 40),
            MechanicalType::MouseExerciseWheel => (40, 40),
            MechanicalType::TransRotoMatic => (24, 24),
            MechanicalType::RotoTransConverter => (24, 24),
            MechanicalType::TipsyTrailer => (48, 24),
            MechanicalType::Scissors => (24, 16),
            MechanicalType::HedgeTrimmers => (32, 12),
            MechanicalType::TinSnips => (24, 12),
            MechanicalType::BoxingGlove => (24, 32),
            MechanicalType::VacuumCleaner => (40, 32),
            MechanicalType::PinballBumper => (24, 24),
            MechanicalType::Tack => (8, 8),
            MechanicalType::Bellows => (32, 24),
        }
    }

    open spec fn icon_glyph(&self) -> char {
        match self {
            MechanicalType::Gear => '\u{2699}',
            MechanicalType::Pulley | MechanicalType::MouseExerciseWheel => '\u{25CE}',
            MechanicalType::Belt => '\u{2500}',
            MechanicalType::TeeterTotter | MechanicalType::TipsyTrailer => '\u{2550}',
            MechanicalType::ConveyorBelt => '\u{25AC}',
            MechanicalType::Trampoline => '\u{255A}',
            MechanicalType::JackInTheBox => '\u{2554}',
            MechanicalType::Windmill => '\u{2731}',
            MechanicalType::MandrillMotor => 'M',
            MechanicalType::TransRotoMatic => '\u{229E}',
            MechanicalType::RotoTransConverter => '\u{229F}',
            MechanicalType::Scissors => '\u{2702}',
            MechanicalType::HedgeTrimmers | MechanicalType::TinSnips => '\u{2704}',
            MechanicalType::BoxingGlove => 'B',
            MechanicalType::VacuumCleaner => 'V',
            MechanicalType::PinballBumper => '\u{25C9}',
            MechanicalType::Tack => '\u{25B4}',
            MechanicalType::Bellows => '\u{25C4}',
        }
    }

    open spec fn icon_rgb(&self) -> [u8; 3] {
        match self {
            MechanicalType::Gear | MechanicalType::Scissors | MechanicalType::TinSnips | MechanicalType::Tack => SILVER,
            MechanicalType::Pulley | MechanicalType::MouseExerciseWheel | MechanicalType::ConveyorBelt
            | MechanicalType::Belt | MechanicalType::TransRotoMatic | MechanicalType::RotoTransConverter => GRAY,
            MechanicalType::TeeterTotter | MechanicalType::Windmill | MechanicalType::MandrillMotor | MechanicalType::TipsyTrailer => BROWN,
            MechanicalType::Trampoline => BLUE,
            MechanicalType::JackInTheBox => MAGENTA,
            MechanicalType::HedgeTrimmers => GREEN,
            MechanicalType::BoxingGlove => RED,
            MechanicalType::VacuumCleaner => BLUE,
            MechanicalType::PinballBumper => YELLOW,
            MechanicalType::Bellows => BROWN,
        }
    }

    open spec fn text_char(&self, flipped: bool) -> char {
        self.icon_glyph()
    }

    open spec fn state_table(&self) -> Seq<(Seq<char>, Seq<char>)> {
        match self {
            MechanicalType::Gear | MechanicalType::Windmill | MechanicalType::MouseExerciseWheel => seq![
                ("Idle"@, "Not spinning"@),
                ("Spinning"@, "Rotating continuously"@),
            ],
            MechanicalType::MandrillMotor => seq![
                ("ShadeClosed"@, "Shade down, monkey not pedaling"@),
                ("Pedaling"@, "Shade open, monkey pedaling"@),
                ("Stunned"@, "Bonked on head, stars for 2s"@),
            ],
            MechanicalType::Scissors => seq![
                ("Open"@, "Blades apart"@),
                ("Closed"@, "Blades shut — cuts rope/pops balloons"@),
            ],
            MechanicalType::JackInTheBox => seq![
                ("Closed"@, "Lid sealed, counting rotations"@),
                ("WindingUp"@, "Receiving rotation input"@),
                ("Open"@, "Lid sprung open — catapult active"@),
            ],
            MechanicalType::BoxingGlove => seq![
                ("Retracted"@, "Glove at rest"@),
                ("Punching"@, "Spring extending — ~1200 px/s force"@),
            ],
            MechanicalType::VacuumCleaner => seq![
                ("Off"@, "Unpowered"@),
                ("On"@, "Powered — sucking objects in ~60px radius"@),
            ],
            MechanicalType::TeeterTotter => seq![
                ("Level"@, "Balanced at center"@),
                ("TiltedLeft"@, "Left side down"@),
                ("TiltedRight"@, "Right side down"@),
            ],
            MechanicalType::ConveyorBelt => seq![
                ("Idle"@, "Not belt-driven"@),
                ("Running"@, "Belt-driven, moving objects"@),
            ],
            MechanicalType::Bellows => seq![
                ("Open"@, "Handle up — ready to compress"@),
                ("Compressed"@, "Handle pushed down — emitting air burst"@),
                ("Spent"@, "Fully compressed — no more air"@),
            ],
            MechanicalType::Trampoline => seq![
                ("Idle"@, "Surface at rest"@),
                ("Compressed"@, "Object landing — storing energy"@),
                ("Releasing"@, "Springing back — launching object"@),
            ],
            _ => seq![
                ("Idle"@, "Default state"@),
            ],
        }
    }

    open spec fn animated(&self) -> bool {
        matches!(self,
            MechanicalType::Gear | MechanicalType::Windmill | MechanicalType::TeeterTotter |
            MechanicalType::Trampoline | MechanicalType::PinballBumper | MechanicalType::MandrillMotor |
            MechanicalType::MouseExerciseWheel
        )
    }

    open spec fn resizable(&self) -> bool {
        false
    }

    open spec fn flippable(&self) -> bool {
        matches!(self, MechanicalType::Windmill | MechanicalType::BoxingGlove | MechanicalType::JackInTheBox | MechanicalType::MouseExerciseWheel | MechanicalType::Bellows)
    }

    open spec fn dynamite_destructible(&self) -> bool {
        false
    }

    open spec fn ramp_capable(&self) -> bool {
        matches!(self, MechanicalType::TeeterTotter | MechanicalType::PinballBumper | MechanicalType::VacuumCleaner | MechanicalType::Bellows)
    }

    open spec fn rope_attachable(&self) -> bool {
        matches!(self, MechanicalType::TeeterTotter | MechanicalType::Pulley)
    }

    open spec fn power_consumer(&self) -> bool {
        matches!(self, MechanicalType::VacuumCleaner)
    }

    open spec fn power_source(&self) -> bool {
        false
    }

    fn name(&self) -> &'static str {
        match self {
            MechanicalType::Gear => "Gear",
            MechanicalType::Pulley => "Pulley",
            MechanicalType::Belt => "Belt",
            MechanicalType::TeeterTotter => "Teeter-Totter",
            MechanicalType::ConveyorBelt => "Conveyor Belt",
            MechanicalType::Trampoline => "Trampoline",
            MechanicalType::JackInTheBox => "Jack-in-the-Box",
            MechanicalType::Windmill => "Windmill",
            MechanicalType::MandrillMotor => "Mandrill Motor",
            MechanicalType::MouseExerciseWheel => "Mouse Exercise Wheel",
            MechanicalType::TransRotoMatic => "Trans-Roto-Matic",
            MechanicalType::RotoTransConverter => "Roto-Trans-Converter",
            MechanicalType::TipsyTrailer => "Tipsy Trailer",
            MechanicalType::Scissors => "Scissors",
            MechanicalType::HedgeTrimmers => "Hedge Trimmers",
            MechanicalType::TinSnips => "Tin Snips",
            MechanicalType::BoxingGlove => "Boxing Glove",
            MechanicalType::VacuumCleaner => "Vacuum Cleaner",
            MechanicalType::PinballBumper => "Pinball Bumper",
            MechanicalType::Tack => "Tack",
            MechanicalType::Bellows => "Bike Pump (Bellows)",
        }
    }

    fn description(&self) -> &'static str {
        match self {
            MechanicalType::Gear => "Interlocking cog; driven by belts/adjacent gears; pops balloons",
            MechanicalType::Pulley => "Frictionless rope redirection (max 8 per rope)",
            MechanicalType::Belt => "Connects two rotating parts; max 200px stretch; 1:1 speed",
            MechanicalType::TeeterTotter => "Seesaw: torque = force x distance from pivot",
            MechanicalType::ConveyorBelt => "Belt-driven surface; high friction (1.0)",
            MechanicalType::Trampoline => "Elasticity 1.2; bounces higher than fall; max 1500 px/s",
            MechanicalType::JackInTheBox => "Opens after ~3 rotations; catapult ~500 px/s",
            MechanicalType::Windmill => "Spins from air (fan/bellows/steam); drives belts",
            MechanicalType::MandrillMotor => "Monkey pedals when shade open; bonk = 2s stun",
            MechanicalType::MouseExerciseWheel => "Activates on nearby impact; mouse direction = spin",
            MechanicalType::TransRotoMatic => "Converts translational to rotational motion",
            MechanicalType::RotoTransConverter => "Converts rotational to translational motion",
            MechanicalType::TipsyTrailer => "Tilting platform on wheels",
            MechanicalType::Scissors => "Opens/closes on pressure; cuts rope, pops balloons",
            MechanicalType::HedgeTrimmers => "Always active; cuts rope on contact (NOT steel cable)",
            MechanicalType::TinSnips => "ONLY tool that cuts BOTH rope AND steel cable",
            MechanicalType::BoxingGlove => "Triggered punch at ~1200 px/s",
            MechanicalType::VacuumCleaner => "Requires power; sucks objects in ~60px radius",
            MechanicalType::PinballBumper => "Bounces objects away at ~800 px/s",
            MechanicalType::Tack => "Pops balloons on contact; forms walking surfaces",
            MechanicalType::Bellows => "Air burst when compressed; blows objects/spins windmills; flippable",
        }
    }

    fn category(&self) -> &'static str {
        "Mechanical"
    }

    fn default_size(&self) -> (u32, u32) {
        match self {
            MechanicalType::Gear => (40, 40),
            MechanicalType::Pulley => (24, 24),
            MechanicalType::Belt => (64, 8),
            MechanicalType::TeeterTotter => (80, 16),
            MechanicalType::ConveyorBelt => (64, 16),
            MechanicalType::Trampoline => (48, 24),
            MechanicalType::JackInTheBox => (32, 32),
            MechanicalType::Windmill => (48, 48),
            MechanicalType::MandrillMotor => (48, 40),
            MechanicalType::MouseExerciseWheel => (40, 40),
            MechanicalType::TransRotoMatic => (24, 24),
            MechanicalType::RotoTransConverter => (24, 24),
            MechanicalType::TipsyTrailer => (48, 24),
            MechanicalType::Scissors => (24, 16),
            MechanicalType::HedgeTrimmers => (32, 12),
            MechanicalType::TinSnips => (24, 12),
            MechanicalType::BoxingGlove => (24, 32),
            MechanicalType::VacuumCleaner => (40, 32),
            MechanicalType::PinballBumper => (24, 24),
            MechanicalType::Tack => (8, 8),
            MechanicalType::Bellows => (32, 24),
        }
    }

    fn icon_char(&self) -> char {
        match self {
            MechanicalType::Gear => '\u{2699}',
            MechanicalType::Pulley | MechanicalType::MouseExerciseWheel => '\u{25CE}',
            MechanicalType::Belt => '\u{2500}',
            MechanicalType::TeeterTotter | MechanicalType::TipsyTrailer => '\u{2550}',
            MechanicalType::ConveyorBelt => '\u{25AC}',
            MechanicalType::Trampoline => '\u{255A}',
            MechanicalType::JackInTheBox => '\u{2554}',
            MechanicalType::Windmill => '\u{2731}',
            MechanicalType::MandrillMotor => 'M',
            MechanicalType::TransRotoMatic => '\u{229E}',
            MechanicalType::RotoTransConverter => '\u{229F}',
            MechanicalType::Scissors => '\u{2702}',
            MechanicalType::HedgeTrimmers | MechanicalType::TinSnips => '\u{2704}',
            MechanicalType::BoxingGlove => 'B',
            MechanicalType::VacuumCleaner => 'V',
            MechanicalType::PinballBumper => '\u{25C9}',
            MechanicalType::Tack => '\u{25B4}',
            MechanicalType::Bellows => '\u{25C4}',
        }
    }

    fn icon_color(&self) -> [u8; 3] {
        match self {
            MechanicalType::Gear | MechanicalType::Scissors | MechanicalType::TinSnips | MechanicalType::Tack => SILVER,
            MechanicalType::Pulley | MechanicalType::MouseExerciseWheel | MechanicalType::ConveyorBelt
            | MechanicalType::Belt | MechanicalType::TransRotoMatic | MechanicalType::RotoTransConverter => GRAY,
            MechanicalType::TeeterTotter | MechanicalType::Windmill | MechanicalType::MandrillMotor | MechanicalType::TipsyTrailer => BROWN,
            MechanicalType::Trampoline => BLUE,
            MechanicalType::JackInTheBox => MAGENTA,
            MechanicalType::HedgeTrimmers => GREEN,
            MechanicalType::BoxingGlove => RED,
            MechanicalType::VacuumCleaner => BLUE,
            MechanicalType::PinballBumper => YELLOW,
            MechanicalType::Bellows => BROWN,
        }
    }

    fn text_glyph(&self, area: CellRect, _flipped: bool) -> Option<Glyph> {
        place_centered(area, self.icon_char(), self.icon_color())
    }

    fn states(&self) -> Vec<StateDef> {
        match self {
            MechanicalType::Gear | MechanicalType::Windmill | MechanicalType::MouseExerciseWheel => vec![
                StateDef { name: "Idle", description: "Not spinning" },
                StateDef { name: "Spinning", description: "Rotating continuously" },
            ],
            MechanicalType::MandrillMotor => vec![
                StateDef { name: "ShadeClosed", description: "Shade down, monkey not pedaling" },
                StateDef { name: "Pedaling", description: "Shade open, monkey pedaling" },
                StateDef { name: "Stunned", description: "Bonked on head, stars for 2s" },
            ],
            MechanicalType::Scissors => vec![
                StateDef { name: "Open", description: "Blades apart" },
                StateDef { name: "Closed", description: "Blades shut — cuts rope/pops balloons" },
            ],
            MechanicalType::JackInTheBox => vec![
                StateDef { name: "Closed", description: "Lid sealed, counting rotations" },
                StateDef { name: "WindingUp", description: "Receiving rotation input" },
                StateDef { name: "Open", description: "Lid sprung open — catapult active" },
            ],
            MechanicalType::BoxingGlove => vec![
                StateDef { name: "Retracted", description: "Glove at rest" },
                StateDef { name: "Punching", description: "Spring extending — ~1200 px/s force" },
            ],
            MechanicalType::VacuumCleaner => vec![
                StateDef { name: "Off", description: "Unpowered" },
                StateDef { name: "On", description: "Powered — sucking objects in ~60px radius" },
            ],
            MechanicalType::TeeterTotter => vec![
                StateDef { name: "Level", description: "Balanced at center" },
                StateDef { name: "TiltedLeft", description: "Left side down" },
                StateDef { name: "TiltedRight", description: "Right side down" },
            ],
            MechanicalType::ConveyorBelt => vec![
                StateDef { name: "Idle", description: "Not belt-driven" },
                StateDef { name: "Running", description: "Belt-driven, moving objects" },
            ],
            MechanicalType::Bellows => vec![
                StateDef { name: "Open", description: "Handle up — ready to compress" },
                StateDef { name: "Compressed", description: "Handle pushed down — emitting air burst" },
                StateDef { name: "Spent", description: "Fully compressed — no more air" },
            ],
            MechanicalType::Trampoline => vec![
                StateDef { name: "Idle", description: "Surface at rest" },
                StateDef { name: "Compressed", description: "Object landing — storing energy" },
                StateDef { name: "Releasing", description: "Springing back — launching object" },
            ],
            _ => vec![
                StateDef { name: "Idle", description: "Default state" },
            ],
        }
    }

    fn has_animation(&self) -> bool {
        matches!(self,
            MechanicalType::Gear | MechanicalType::Windmill | MechanicalType::TeeterTotter |
            MechanicalType::Trampoline | MechanicalType::PinballBumper | MechanicalType::MandrillMotor |
            MechanicalType::MouseExerciseWheel
        )
    }

    fn is_resizable(&self) -> bool {
        false
    }

    fn is_flippable(&self) -> bool {
        matches!(self, MechanicalType::Windmill | MechanicalType::BoxingGlove | MechanicalType::JackInTheBox | MechanicalType::MouseExerciseWheel | MechanicalType::Bellows)
    }

    fn destructible_by_dynamite(&self) -> bool {
        false
    }

    fn can_be_ramp(&self) -> bool {
        matches!(self, MechanicalType::TeeterTotter | MechanicalType::PinballBumper | MechanicalType::VacuumCleaner | MechanicalType::Bellows)
    }

    fn has_rope_point(&self) -> bool {
        matches!(self, MechanicalType::TeeterTotter | MechanicalType::Pulley)
    }

    fn requires_power(&self) -> bool {
        matches!(self, MechanicalType::VacuumCleaner)
    }

    fn provides_power(&self) -> bool {
        false
    }
}

} // verus!
