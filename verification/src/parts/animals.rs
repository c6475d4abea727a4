//! Animals and the places they go.
use vstd::prelude::*;

use crate::parts::{PartDef, StateDef};
use crate::render::cells::{place_centered, CellRect, Glyph};
use crate::render::text_chars::{BLUE, BROWN, CYAN, DARK_GRAY, GRAY, GREEN, ORANGE, YELLOW};

verus! {

#[derive(Debug, Clone, Copy, PartialEq, Eq, Structural)]
pub enum AnimalType {
    PokeyCat,
    MortMouse,
    Cheese,
    EdisonAlligator,
    MelSchlemming,
    MelsHouse,
    BillsFishTank,
    MouseHole,
    Leprechaun,
}

impl AnimalType {
    /// Position of the variant in the declaration of the enum.
    pub open spec fn variant_index(&self) -> int {
        match self {
            AnimalType::PokeyCat => 0,
            AnimalType::MortMouse => 1,
            AnimalType::Cheese => 2,
            AnimalType::EdisonAlligator => 3,
            AnimalType::MelSchlemming => 4,
            AnimalType::MelsHouse => 5,
            AnimalType::BillsFishTank => 6,
            AnimalType::MouseHole => 7,
            AnimalType::Leprechaun => 8,
        }
    }}

impl PartDef for AnimalType {
    open spec fn name_text(&self) -> Seq<char> {
        match self {
            AnimalType::PokeyCat => "Pokey the Cat"@,
            AnimalType::MortMouse => "Mort the Mouse"@,
            AnimalType::Cheese => "Cheese"@,
            AnimalType::EdisonAlligator => "Edison Alligator"@,
            AnimalType::MelSchlemming => "Mel Schlemming"@,
            AnimalType::MelsHouse => "Mel's House"@,
            AnimalType::BillsFishTank => "Bill's Fish Tank"@,
            AnimalType::MouseHole => "Mouse Hole"@,
            AnimalType::Leprechaun => "Leprechaun"@,
        }
    }

    open spec fn description_text(&self) -> Seq<char> {
        match self {
            AnimalType::PokeyCat => "Mass 0.8; chases mouse (200px LOS, 80 px/s); attracted to broken fishbowl; NOT eaten by gator"@,
            AnimalType::MortMouse => "Mass 0.02; flees cat (70 px/s); seeks cheese (150px, 60 px/s); activates wheel (30px); eaten by gator"@,
            AnimalType::Cheese => "Mass 0.1; dynamic; attracts Mort (150px); NOT consumed"@,
            AnimalType::EdisonAlligator => "Static; tail bounces ~500 px/s @ 2Hz; jaw snaps ~600 px/s; eats mouse/Mel, NOT cat"@,
            AnimalType::MelSchlemming => "Mass 0.5; walk 50/run 100 px/s; dies: fall >150px or >200 px/s impact or eaten"@,
            AnimalType::MelsHouse => "Static; suburban/cabin; Mel enters → lights on, chimney smoke"@,
            AnimalType::BillsFishTank => "Static; breaks at >100 px/s impact; fish dies 3s after; broken bowl attracts cat"@,
            AnimalType::MouseHole => "Static; Mort enters → safe"@,
            AnimalType::Leprechaun => "Green-clad character"@,
        }
    }

    open spec fn category_text(&self) -> Seq<char> {
        "Animals"@
    }

    open spec fn size_px(&self) -> (u32, u32) {
        match self {
            AnimalType::PokeyCat => (24, 20),
            AnimalType::MortMouse => (10, 8),
            AnimalType::Cheese => (12, 10),
            AnimalType::EdisonAlligator => (64, 32),
            AnimalType::MelSchlemming => (16, 24),
            AnimalType::MelsHouse => (48, 48),
            AnimalType::BillsFishTank => (20, 24),
            AnimalType::MouseHole => (16, 16),
            AnimalType::Leprechaun => (24, 32),
        }
    }

    open spec fn icon_glyph(&self) -> char {
        match self {
            AnimalType::PokeyCat => 'C',
            AnimalType::MortMouse => 'm',
            AnimalType::Cheese => '\u{25B2}',
            AnimalType::EdisonAlligator => 'A',
            AnimalType::MelSchlemming => 'M',
            AnimalType::MelsHouse => '\u{2302}',
            AnimalType::BillsFishTank => '\u{25CB}',
            AnimalType::MouseHole => '\u{25E0}',
            AnimalType::Leprechaun => '\u{2663}',
        }
    }

    open spec fn icon_rgb(&self) -> [u8; 3] {
        match self {
            AnimalType::PokeyCat => ORANGE,
            AnimalType::MortMouse => GRAY,
            AnimalType::Cheese => YELLOW,
            AnimalType::EdisonAlligator => GREEN,
            AnimalType::MelSchlemming => BLUE,
            AnimalType::MelsHouse => BROWN,
            AnimalType::BillsFishTank => CYAN,
            AnimalType::MouseHole => DARK_GRAY,
            AnimalType::Leprechaun => GREEN,
        }
    }

    open spec fn text_char(&self, flipped: bool) -> char {
        self.icon_glyph()
    }

    open spec fn state_table(&self) -> Seq<(Seq<char>, Seq<char>)> {
        match self {
            AnimalType::PokeyCat => seq![
                ("Idle"@, "Sitting still; occasional meow"@),
                ("Walking"@, "Moving at 50-80 px/s toward target"@),
                ("Chasing"@, "Pursuing mouse or broken fishbowl (200px LOS)"@),
                ("Startled"@, "Shriek + fur standing up (1.0s)"@),
            ],
            AnimalType::MortMouse => seq![
                ("Idle"@, "Sitting still"@),
                ("Fleeing"@, "Running from cat at 70 px/s"@),
                ("SeekingCheese"@, "Running toward cheese (150px, 60 px/s)"@),
                ("Eaten"@, "Consumed by alligator"@),
                ("Safe"@, "Entered mouse hole"@),
            ],
            AnimalType::EdisonAlligator => seq![
                ("Idle"@, "Tail bouncing @ ~2Hz; jaw ready"@),
                ("Snapping"@, "Jaw closing on target (0.3s animation)"@),
                ("Laughing"@, "Laugh animation after eating (1.5s)"@),
            ],
            AnimalType::MelSchlemming => seq![
                ("Walking"@, "Moving at 50 px/s"@),
                ("Running"@, "Moving at 100 px/s"@),
                ("Stationary"@, "Standing still"@),
                ("EnteringHouse"@, "Walking into Mel's House"@),
                ("Dead"@, "Fatal fall/impact/eaten"@),
            ],
            AnimalType::MelsHouse => seq![
                ("Empty"@, "No occupant"@),
                ("Occupied"@, "Mel inside — lights on, chimney smoke"@),
            ],
            AnimalType::BillsFishTank => seq![
                ("Intact"@, "Glass bowl with live fish"@),
                ("Broken"@, "Shattered — fish dies after 3s; attracts cat"@),
            ],
            _ => seq![
                ("Idle"@, "Default state"@),
            ],
        }
    }

    open spec fn animated(&self) -> bool {
        matches!(self,
            AnimalType::PokeyCat | AnimalType::MortMouse | AnimalType::EdisonAlligator |
            AnimalType::MelSchlemming | AnimalType::BillsFishTank
        )
    }

    open spec fn resizable(&self) -> bool {
        false
    }

    open spec fn flippable(&self) -> bool {
        matches!(self, AnimalType::EdisonAlligator)
    }

    open spec fn dynamite_destructible(&self) -> bool {
        false
    }

    open spec fn ramp_capable(&self) -> bool {
        false
    }

    open spec fn rope_attachable(&self) -> bool {
        false
    }

    open spec fn power_consumer(&self) -> bool {
        false
    }

    open spec fn power_source(&self) -> bool {
        false
    }

    fn name(&self) -> &'static str {
        match self {
            AnimalType::PokeyCat => "Pokey the Cat",
            AnimalType::MortMouse => "Mort the Mouse",
            AnimalType::Cheese => "Cheese",
            AnimalType::EdisonAlligator => "Edison Alligator",
            AnimalType::MelSchlemming => "Mel Schlemming",
            AnimalType::MelsHouse => "Mel's House",
            AnimalType::BillsFishTank => "Bill's Fish Tank",
            AnimalType::MouseHole => "Mouse Hole",
            AnimalType::Leprechaun => "Leprechaun",
        }
    }

    fn description(&self) -> &'static str {
        match self {
            AnimalType::PokeyCat => "Mass 0.8; chases mouse (200px LOS, 80 px/s); attracted to broken fishbowl; NOT eaten by gator",
            AnimalType::MortMouse => "Mass 0.02; flees cat (70 px/s); seeks cheese (150px, 60 px/s); activates wheel (30px); eaten by gator",
            AnimalType::Cheese => "Mass 0.1; dynamic; attracts Mort (150px); NOT consumed",
            AnimalType::EdisonAlligator => "Static; tail bounces ~500 px/s @ 2Hz; jaw snaps ~600 px/s; eats mouse/Mel, NOT cat",
            AnimalType::MelSchlemming => "Mass 0.5; walk 50/run 100 px/s; dies: fall >150px or >200 px/s impact or eaten",
            AnimalType::MelsHouse => "Static; suburban/cabin; Mel enters → lights on, chimney smoke",
            AnimalType::BillsFishTank => "Static; breaks at >100 px/s impact; fish dies 3s after; broken bowl attracts cat",
            AnimalType::MouseHole => "Static; Mort enters → safe",
            AnimalType::Leprechaun => "Green-clad character",
        }
    }

    fn category(&self) -> &'static str {
        "Animals"
    }

    fn default_size(&self) -> (u32, u32) {
        match self {
            AnimalType::PokeyCat => (24, 20),
            AnimalType::MortMouse => (10, 8),
            AnimalType::Cheese => (12, 10),
            AnimalType::EdisonAlligator => (64, 32),
            AnimalType::MelSchlemming => (16, 24),
            AnimalType::MelsHouse => (48, 48),
            AnimalType::BillsFishTank => (20, 24),
            AnimalType::MouseHole => (16, 16),
            AnimalType::Leprechaun => (24, 32),
        }
    }

    fn icon_char(&self) -> char {
        match self {
            AnimalType::PokeyCat => 'C',
            AnimalType::MortMouse => 'm',
            AnimalType::Cheese => '\u{25B2}',
            AnimalType::EdisonAlligator => 'A',
            AnimalType::MelSchlemming => 'M',
            AnimalType::MelsHouse => '\u{2302}',
            AnimalType::BillsFishTank => '\u{25CB}',
            AnimalType::MouseHole => '\u{25E0}',
            AnimalType::Leprechaun => '\u{2663}',
        }
    }

    fn icon_color(&self) -> [u8; 3] {
        match self {
            AnimalType::PokeyCat => ORANGE,
            AnimalType::MortMouse => GRAY,
            AnimalType::Cheese => YELLOW,
            AnimalType::EdisonAlligator => GREEN,
            AnimalType::MelSchlemming => BLUE,
            AnimalType::MelsHouse => BROWN,
            AnimalType::BillsFishTank => CYAN,
            AnimalType::MouseHole => DARK_GRAY,
            AnimalType::Leprechaun => GREEN,
        }
    }

    fn text_glyph(&self, area: CellRect, _flipped: bool) -> Option<Glyph> {
        place_centered(area, self.icon_char(), self.icon_color())
    }

    fn states(&self) -> Vec<StateDef> {
        match self {
            AnimalType::PokeyCat => vec![
                StateDef { name: "Idle", description: "Sitting still; occasional meow" },
                StateDef { name: "Walking", description: "Moving at 50-80 px/s toward target" },
                StateDef { name: "Chasing", description: "Pursuing mouse or broken fishbowl (200px LOS)" },
                StateDef { name: "Startled", description: "Shriek + fur standing up (1.0s)" },
            ],
            AnimalType::MortMouse => vec![
                StateDef { name: "Idle", description: "Sitting still" },
                StateDef { name: "Fleeing", description: "Running from cat at 70 px/s" },
                StateDef { name: "SeekingCheese", description: "Running toward cheese (150px, 60 px/s)" },
                StateDef { name: "Eaten", description: "Consumed by alligator" },
                StateDef { name: "Safe", description: "Entered mouse hole" },
            ],
            AnimalType::EdisonAlligator => vec![
                StateDef { name: "Idle", description: "Tail bouncing @ ~2Hz; jaw ready" },
                StateDef { name: "Snapping", description: "Jaw closing on target (0.3s animation)" },
                StateDef { name: "Laughing", description: "Laugh animation after eating (1.5s)" },
            ],
            AnimalType::MelSchlemming => vec![
                StateDef { name: "Walking", description: "Moving at 50 px/s" },
                StateDef { name: "Running", description: "Moving at 100 px/s" },
                StateDef { name: "Stationary", description: "Standing still" },
                StateDef { name: "EnteringHouse", description: "Walking into Mel's House" },
                StateDef { name: "Dead", description: "Fatal fall/impact/eaten" },
            ],
            AnimalType::MelsHouse => vec![
                StateDef { name: "Empty", description: "No occupant" },
                StateDef { name: "Occupied", description: "Mel inside — lights on, chimney smoke" },
            ],
            AnimalType::BillsFishTank => vec![
                StateDef { name: "Intact", description: "Glass bowl with live fish" },
                StateDef { name: "Broken", description: "Shattered — fish dies after 3s; attracts cat" },
            ],
            _ => vec![
                StateDef { name: "Idle", description: "Default state" },
            ],
        }
    }

    fn has_animation(&self) -> bool {
        matches!(self,
            AnimalType::PokeyCat | AnimalType::MortMouse | AnimalType::EdisonAlligator |
            AnimalType::MelSchlemming | AnimalType::BillsFishTank
        )
    }

    fn is_resizable(&self) -> bool {
        false
    }

    fn is_flippable(&self) -> bool {
        matches!(self, AnimalType::EdisonAlligator)
    }

    fn destructible_by_dynamite(&self) -> bool {
        false
    }

    fn can_be_ramp(&self) -> bool {
        false
    }

    fn has_rope_point(&self) -> bool {
        false
    }

    fn requires_power(&self) -> bool {
        false
    }

    fn provides_power(&self) -> bool {
        false
    }
}

} // verus!
