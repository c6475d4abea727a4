//! The part catalog: every kind of part, its metadata, and how it shows in text mode.
//!
//! Drawing, physics constants and editable numeric properties of parts are
//! floating-point data and live with the game program; this module holds the
//! rest of each part's definition.
pub mod animals;
pub mod balls;
pub mod electrical;
pub mod gadgets;
pub mod inclines;
pub mod lasers;
pub mod mechanical;
pub mod pipes;
pub mod pyrotechnic;
pub mod ropes;
pub mod walls;

use vstd::prelude::*;

use crate::render::cells::{centered_glyph, center_fits, CellRect, Glyph};

use self::animals::AnimalType;
use self::balls::BallType;
use self::electrical::ElectricalType;
use self::gadgets::GadgetType;
use self::inclines::InclineType;
use self::lasers::LaserType;
use self::mechanical::MechanicalType;
use self::pipes::PipeType;
use self::pyrotechnic::PyrotechnicType;
use self::ropes::RopeType;
use self::walls::WallType;

verus! {

// ── State system ───────────────────────────────────────────────

/// Named state that a part can be in during simulation.
#[derive(Debug, Clone, PartialEq)]
pub struct StateDef {
    pub name: &'static str,
    pub description: &'static str,
}

/// The (name, description) texts of a list of states.
pub open spec fn state_texts(states: Seq<StateDef>) -> Seq<(Seq<char>, Seq<char>)> {
    states.map_values(|s: StateDef| (s.name@, s.description@))
}

// ── Part definition trait ──────────────────────────────────────

/// Metadata every part type provides.
///
/// Each method is tied to a spec function that states its value; the spec
/// functions are what the contracts and laws of the library speak of.
pub trait PartDef {
    spec fn name_text(&self) -> Seq<char>;

    spec fn description_text(&self) -> Seq<char>;

    spec fn category_text(&self) -> Seq<char>;

    /// Default (width, height) in pixels.
    spec fn size_px(&self) -> (u32, u32);

    spec fn icon_glyph(&self) -> char;

    spec fn icon_rgb(&self) -> [u8; 3];

    /// The character shown in text mode, which may depend on the part being flipped.
    spec fn text_char(&self, flipped: bool) -> char;

    /// The (name, description) of each state the part can be in.
    spec fn state_table(&self) -> Seq<(Seq<char>, Seq<char>)>;

    spec fn animated(&self) -> bool;

    spec fn resizable(&self) -> bool;

    spec fn flippable(&self) -> bool;

    spec fn dynamite_destructible(&self) -> bool;

    spec fn ramp_capable(&self) -> bool;

    spec fn rope_attachable(&self) -> bool;

    spec fn power_consumer(&self) -> bool;

    spec fn power_source(&self) -> bool;

    fn name(&self) -> (r: &'static str)
        ensures
            r@ == self.name_text(),
    ;

    fn description(&self) -> (r: &'static str)
        ensures
            r@ == self.description_text(),
    ;

    fn category(&self) -> (r: &'static str)
        ensures
            r@ == self.category_text(),
    ;

    fn default_size(&self) -> (r: (u32, u32))
        ensures
            r == self.size_px(),
    ;

    fn icon_char(&self) -> (r: char)
        ensures
            r == self.icon_glyph(),
    ;

    fn icon_color(&self) -> (r: [u8; 3])
        ensures
            r == self.icon_rgb(),
    ;

    /// Possible states this part can be in during simulation.
    /// Every part defines at least one state.
    fn states(&self) -> (r: Vec<StateDef>)
        ensures
            state_texts(r@) == self.state_table(),
    ;

    /// The cell and character that text mode draws for this part in `area`.
    fn text_glyph(&self, area: CellRect, flipped: bool) -> (r: Option<Glyph>)
        requires
            center_fits(area),
        ensures
            r == centered_glyph(area, self.text_char(flipped), self.icon_rgb()),
    ;

    fn has_animation(&self) -> (r: bool)
        ensures
            r == self.animated(),
    ;

    fn is_resizable(&self) -> (r: bool)
        ensures
            r == self.resizable(),
    ;

    fn is_flippable(&self) -> (r: bool)
        ensures
            r == self.flippable(),
    ;

    /// Whether this part is destructible by dynamite.
    fn destructible_by_dynamite(&self) -> (r: bool)
        ensures
            r == self.dynamite_destructible(),
    ;

    /// Whether this part can serve as a ramp surface.
    fn can_be_ramp(&self) -> (r: bool)
        ensures
            r == self.ramp_capable(),
    ;

    /// Whether rope can attach to this part.
    fn has_rope_point(&self) -> (r: bool)
        ensures
            r == self.rope_attachable(),
    ;

    /// Whether this part requires electrical power.
    fn requires_power(&self) -> (r: bool)
        ensures
            r == self.power_consumer(),
    ;

    /// Whether this part provides electrical power.
    fn provides_power(&self) -> (r: bool)
        ensures
            r == self.power_source(),
    ;
}

// ── Part ID enum ───────────────────────────────────────────────

/// Top-level part identifier spanning all categories.
#[derive(Debug, Clone, Copy, PartialEq, Eq, Structural)]
pub enum PartId {
    Ball(BallType),
    Wall(WallType),
    Incline(InclineType),
    Mechanical(MechanicalType),
    Electrical(ElectricalType),
    Pyrotechnic(PyrotechnicType),
    Animal(AnimalType),
    Gadget(GadgetType),
    Pipe(PipeType),
    Laser(LaserType),
    Rope(RopeType),
}

impl PartDef for PartId {
    open spec fn name_text(&self) -> Seq<char> {
        match self {
            PartId::Ball(t) => t.name_text(),
            PartId::Wall(t) => t.name_text(),
            PartId::Incline(t) => t.name_text(),
            PartId::Mechanical(t) => t.name_text(),
            PartId::Electrical(t) => t.name_text(),
            PartId::Pyrotechnic(t) => t.name_text(),
            PartId::Animal(t) => t.name_text(),
            PartId::Gadget(t) => t.name_text(),
            PartId::Pipe(t) => t.name_text(),
            PartId::Laser(t) => t.name_text(),
            PartId::Rope(t) => t.name_text(),
        }
    }

    open spec fn description_text(&self) -> Seq<char> {
        match self {
            PartId::Ball(t) => t.description_text(),
            PartId::Wall(t) => t.description_text(),
            PartId::Incline(t) => t.description_text(),
            PartId::Mechanical(t) => t.description_text(),
            PartId::Electrical(t) => t.description_text(),
            PartId::Pyrotechnic(t) => t.description_text(),
            PartId::Animal(t) => t.description_text(),
            PartId::Gadget(t) => t.description_text(),
            PartId::Pipe(t) => t.description_text(),
            PartId::Laser(t) => t.description_text(),
            PartId::Rope(t) => t.description_text(),
        }
    }

    open spec fn category_text(&self) -> Seq<char> {
        match self {
            PartId::Ball(t) => t.category_text(),
            PartId::Wall(t) => t.category_text(),
            PartId::Incline(t) => t.category_text(),
            PartId::Mechanical(t) => t.category_text(),
            PartId::Electrical(t) => t.category_text(),
            PartId::Pyrotechnic(t) => t.category_text(),
            PartId::Animal(t) => t.category_text(),
            PartId::Gadget(t) => t.category_text(),
            PartId::Pipe(t) => t.category_text(),
            PartId::Laser(t) => t.category_text(),
            PartId::Rope(t) => t.category_text(),
        }
    }

    open spec fn size_px(&self) -> (u32, u32) {
        match self {
            PartId::Ball(t) => t.size_px(),
            PartId::Wall(t) => t.size_px(),
            PartId::Incline(t) => t.size_px(),
            PartId::Mechanical(t) => t.size_px(),
            PartId::Electrical(t) => t.size_px(),
            PartId::Pyrotechnic(t) => t.size_px(),
            PartId::Animal(t) => t.size_px(),
            PartId::Gadget(t) => t.size_px(),
            PartId::Pipe(t) => t.size_px(),
            PartId::Laser(t) => t.size_px(),
            PartId::Rope(t) => t.size_px(),
        }
    }

    open spec fn icon_glyph(&self) -> char {
        match self {
            PartId::Ball(t) => t.icon_glyph(),
            PartId::Wall(t) => t.icon_glyph(),
            PartId::Incline(t) => t.icon_glyph(),
            PartId::Mechanical(t) => t.icon_glyph(),
            PartId::Electrical(t) => t.icon_glyph(),
            PartId::Pyrotechnic(t) => t.icon_glyph(),
            PartId::Animal(t) => t.icon_glyph(),
            PartId::Gadget(t) => t.icon_glyph(),
            PartId::Pipe(t) => t.icon_glyph(),
            PartId::Laser(t) => t.icon_glyph(),
            PartId::Rope(t) => t.icon_glyph(),
        }
    }

    open spec fn icon_rgb(&self) -> [u8; 3] {
        match self {
            PartId::Ball(t) => t.icon_rgb(),
            PartId::Wall(t) => t.icon_rgb(),
            PartId::Incline(t) => t.icon_rgb(),
            PartId::Mechanical(t) => t.icon_rgb(),
            PartId::Electrical(t) => t.icon_rgb(),
            PartId::Pyrotechnic(t) => t.icon_rgb(),
            PartId::Animal(t) => t.icon_rgb(),
            PartId::Gadget(t) => t.icon_rgb(),
            PartId::Pipe(t) => t.icon_rgb(),
            PartId::Laser(t) => t.icon_rgb(),
            PartId::Rope(t) => t.icon_rgb(),
        }
    }

    open spec fn text_char(&self, flipped: bool) -> char {
        match self {
            PartId::Ball(t) => t.text_char(flipped),
            PartId::Wall(t) => t.text_char(flipped),
            PartId::Incline(t) => t.text_char(flipped),
            PartId::Mechanical(t) => t.text_char(flipped),
            PartId::Electrical(t) => t.text_char(flipped),
            PartId::Pyrotechnic(t) => t.text_char(flipped),
            PartId::Animal(t) => t.text_char(flipped),
            PartId::Gadget(t) => t.text_char(flipped),
            PartId::Pipe(t) => t.text_char(flipped),
            PartId::Laser(t) => t.text_char(flipped),
            PartId::Rope(t) => t.text_char(flipped),
        }
    }

    open spec fn state_table(&self) -> Seq<(Seq<char>, Seq<char>)> {
        match self {
            PartId::Ball(t) => t.state_table(),
            PartId::Wall(t) => t.state_table(),
            PartId::Incline(t) => t.state_table(),
            PartId::Mechanical(t) => t.state_table(),
            PartId::Electrical(t) => t.state_table(),
            PartId::Pyrotechnic(t) => t.state_table(),
            PartId::Animal(t) => t.state_table(),
            PartId::Gadget(t) => t.state_table(),
            PartId::Pipe(t) => t.state_table(),
            PartId::Laser(t) => t.state_table(),
            PartId::Rope(t) => t.state_table(),
        }
    }

    open spec fn animated(&self) -> bool {
        match self {
            PartId::Ball(t) => t.animated(),
            PartId::Wall(t) => t.animated(),
            PartId::Incline(t) => t.animated(),
            PartId::Mechanical(t) => t.animated(),
            PartId::Electrical(t) => t.animated(),
            PartId::Pyrotechnic(t) => t.animated(),
            PartId::Animal(t) => t.animated(),
            PartId::Gadget(t) => t.animated(),
            PartId::Pipe(t) => t.animated(),
            PartId::Laser(t) => t.animated(),
            PartId::Rope(t) => t.animated(),
        }
    }

    open spec fn resizable(&self) -> bool {
        match self {
            PartId::Ball(t) => t.resizable(),
            PartId::Wall(t) => t.resizable(),
            PartId::Incline(t) => t.resizable(),
            PartId::Mechanical(t) => t.resizable(),
            PartId::Electrical(t) => t.resizable(),
            PartId::Pyrotechnic(t) => t.resizable(),
            PartId::Animal(t) => t.resizable(),
            PartId::Gadget(t) => t.resizable(),
            PartId::Pipe(t) => t.resizable(),
            PartId::Laser(t) => t.resizable(),
            PartId::Rope(t) => t.resizable(),
        }
    }

    open spec fn flippable(&self) -> bool {
        match self {
            PartId::Ball(t) => t.flippable(),
            PartId::Wall(t) => t.flippable(),
            PartId::Incline(t) => t.flippable(),
            PartId::Mechanical(t) => t.flippable(),
            PartId::Electrical(t) => t.flippable(),
            PartId::Pyrotechnic(t) => t.flippable(),
            PartId::Animal(t) => t.flippable(),
            PartId::Gadget(t) => t.flippable(),
            PartId::Pipe(t) => t.flippable(),
            PartId::Laser(t) => t.flippable(),
            PartId::Rope(t) => t.flippable(),
        }
    }

    open spec fn dynamite_destructible(&self) -> bool {
        match self {
            PartId::Ball(t) => t.dynamite_destructible(),
            PartId::Wall(t) => t.dynamite_destructible(),
            PartId::Incline(t) => t.dynamite_destructible(),
            PartId::Mechanical(t) => t.dynamite_destructible(),
            PartId::Electrical(t) => t.dynamite_destructible(),
            PartId::Pyrotechnic(t) => t.dynamite_destructible(),
            PartId::Animal(t) => t.dynamite_destructible(),
            PartId::Gadget(t) => t.dynamite_destructible(),
            PartId::Pipe(t) => t.dynamite_destructible(),
            PartId::Laser(t) => t.dynamite_destructible(),
            PartId::Rope(t) => t.dynamite_destructible(),
        }
    }

    open spec fn ramp_capable(&self) -> bool {
        match self {
            PartId::Ball(t) => t.ramp_capable(),
            PartId::Wall(t) => t.ramp_capable(),
            PartId::Incline(t) => t.ramp_capable(),
            PartId::Mechanical(t) => t.ramp_capable(),
            PartId::Electrical(t) => t.ramp_capable(),
            PartId::Pyrotechnic(t) => t.ramp_capable(),
            PartId::Animal(t) => t.ramp_capable(),
            PartId::Gadget(t) => t.ramp_capable(),
            PartId::Pipe(t) => t.ramp_capable(),
            PartId::Laser(t) => t.ramp_capable(),
            PartId::Rope(t) => t.ramp_capable(),
        }
    }

    open spec fn rope_attachable(&self) -> bool {
        match self {
            PartId::Ball(t) => t.rope_attachable(),
            PartId::Wall(t) => t.rope_attachable(),
            PartId::Incline(t) => t.rope_attachable(),
            PartId::Mechanical(t) => t.rope_attachable(),
            PartId::Electrical(t) => t.rope_attachable(),
            PartId::Pyrotechnic(t) => t.rope_attachable(),
            PartId::Animal(t) => t.rope_attachable(),
            PartId::Gadget(t) => t.rope_attachable(),
            PartId::Pipe(t) => t.rope_attachable(),
            PartId::Laser(t) => t.rope_attachable(),
            PartId::Rope(t) => t.rope_attachable(),
        }
    }

    open spec fn power_consumer(&self) -> bool {
        match self {
            PartId::Ball(t) => t.power_consumer(),
            PartId::Wall(t) => t.power_consumer(),
            PartId::Incline(t) => t.power_consumer(),
            PartId::Mechanical(t) => t.power_consumer(),
            PartId::Electrical(t) => t.power_consumer(),
            PartId::Pyrotechnic(t) => t.power_consumer(),
            PartId::Animal(t) => t.power_consumer(),
            PartId::Gadget(t) => t.power_consumer(),
            PartId::Pipe(t) => t.power_consumer(),
            PartId::Laser(t) => t.power_consumer(),
            PartId::Rope(t) => t.power_consumer(),
        }
    }

    open spec fn power_source(&self) -> bool {
        match self {
            PartId::Ball(t) => t.power_source(),
            PartId::Wall(t) => t.power_source(),
            PartId::Incline(t) => t.power_source(),
            PartId::Mechanical(t) => t.power_source(),
            PartId::Electrical(t) => t.power_source(),
            PartId::Pyrotechnic(t) => t.power_source(),
            PartId::Animal(t) => t.power_source(),
            PartId::Gadget(t) => t.power_source(),
            PartId::Pipe(t) => t.power_source(),
            PartId::Laser(t) => t.power_source(),
            PartId::Rope(t) => t.power_source(),
        }
    }

    fn name(&self) -> &'static str {
        match self {
            PartId::Ball(t) => t.name(),
            PartId::Wall(t) => t.name(),
            PartId::Incline(t) => t.name(),
            PartId::Mechanical(t) => t.name(),
            PartId::Electrical(t) => t.name(),
            PartId::Pyrotechnic(t) => t.name(),
            PartId::Animal(t) => t.name(),
            PartId::Gadget(t) => t.name(),
            PartId::Pipe(t) => t.name(),
            PartId::Laser(t) => t.name(),
            PartId::Rope(t) => t.name(),
        }
    }

    fn description(&self) -> &'static str {
        match self {
            PartId::Ball(t) => t.description(),
            PartId::Wall(t) => t.description(),
            PartId::Incline(t) => t.description(),
            PartId::Mechanical(t) => t.description(),
            PartId::Electrical(t) => t.description(),
            PartId::Pyrotechnic(t) => t.description(),
            PartId::Animal(t) => t.description(),
            PartId::Gadget(t) => t.description(),
            PartId::Pipe(t) => t.description(),
            PartId::Laser(t) => t.description(),
            PartId::Rope(t) => t.description(),
        }
    }

    fn category(&self) -> &'static str {
        match self {
            PartId::Ball(t) => t.category(),
            PartId::Wall(t) => t.category(),
            PartId::Incline(t) => t.category(),
            PartId::Mechanical(t) => t.category(),
            PartId::Electrical(t) => t.category(),
            PartId::Pyrotechnic(t) => t.category(),
            PartId::Animal(t) => t.category(),
            PartId::Gadget(t) => t.category(),
            PartId::Pipe(t) => t.category(),
            PartId::Laser(t) => t.category(),
            PartId::Rope(t) => t.category(),
        }
    }

    fn default_size(&self) -> (u32, u32) {
        match self {
            PartId::Ball(t) => t.default_size(),
            PartId::Wall(t) => t.default_size(),
            PartId::Incline(t) => t.default_size(),
            PartId::Mechanical(t) => t.default_size(),
            PartId::Electrical(t) => t.default_size(),
            PartId::Pyrotechnic(t) => t.default_size(),
            PartId::Animal(t) => t.default_size(),
            PartId::Gadget(t) => t.default_size(),
            PartId::Pipe(t) => t.default_size(),
            PartId::Laser(t) => t.default_size(),
            PartId::Rope(t) => t.default_size(),
        }
    }

    fn icon_char(&self) -> char {
        match self {
            PartId::Ball(t) => t.icon_char(),
            PartId::Wall(t) => t.icon_char(),
            PartId::Incline(t) => t.icon_char(),
            PartId::Mechanical(t) => t.icon_char(),
            PartId::Electrical(t) => t.icon_char(),
            PartId::Pyrotechnic(t) => t.icon_char(),
            PartId::Animal(t) => t.icon_char(),
            PartId::Gadget(t) => t.icon_char(),
            PartId::Pipe(t) => t.icon_char(),
            PartId::Laser(t) => t.icon_char(),
            PartId::Rope(t) => t.icon_char(),
        }
    }

    fn icon_color(&self) -> [u8; 3] {
        match self {
            PartId::Ball(t) => t.icon_color(),
            PartId::Wall(t) => t.icon_color(),
            PartId::Incline(t) => t.icon_color(),
            PartId::Mechanical(t) => t.icon_color(),
            PartId::Electrical(t) => t.icon_color(),
            PartId::Pyrotechnic(t) => t.icon_color(),
            PartId::Animal(t) => t.icon_color(),
            PartId::Gadget(t) => t.icon_color(),
            PartId::Pipe(t) => t.icon_color(),
            PartId::Laser(t) => t.icon_color(),
            PartId::Rope(t) => t.icon_color(),
        }
    }

    fn states(&self) -> Vec<StateDef> {
        match self {
            PartId::Ball(t) => t.states(),
            PartId::Wall(t) => t.states(),
            PartId::Incline(t) => t.states(),
            PartId::Mechanical(t) => t.states(),
            PartId::Electrical(t) => t.states(),
            PartId::Pyrotechnic(t) => t.states(),
            PartId::Animal(t) => t.states(),
            PartId::Gadget(t) => t.states(),
            PartId::Pipe(t) => t.states(),
            PartId::Laser(t) => t.states(),
            PartId::Rope(t) => t.states(),
        }
    }

    fn text_glyph(&self, area: CellRect, flipped: bool) -> Option<Glyph> {
        match self {
            PartId::Ball(t) => t.text_glyph(area, flipped),
            PartId::Wall(t) => t.text_glyph(area, flipped),
            PartId::Incline(t) => t.text_glyph(area, flipped),
            PartId::Mechanical(t) => t.text_glyph(area, flipped),
            PartId::Electrical(t) => t.text_glyph(area, flipped),
            PartId::Pyrotechnic(t) => t.text_glyph(area, flipped),
            PartId::Animal(t) => t.text_glyph(area, flipped),
            PartId::Gadget(t) => t.text_glyph(area, flipped),
            PartId::Pipe(t) => t.text_glyph(area, flipped),
            PartId::Laser(t) => t.text_glyph(area, flipped),
            PartId::Rope(t) => t.text_glyph(area, flipped),
        }
    }

    fn has_animation(&self) -> bool {
        match self {
            PartId::Ball(t) => t.has_animation(),
            PartId::Wall(t) => t.has_animation(),
            PartId::Incline(t) => t.has_animation(),
            PartId::Mechanical(t) => t.has_animation(),
            PartId::Electrical(t) => t.has_animation(),
            PartId::Pyrotechnic(t) => t.has_animation(),
            PartId::Animal(t) => t.has_animation(),
            PartId::Gadget(t) => t.has_animation(),
            PartId::Pipe(t) => t.has_animation(),
            PartId::Laser(t) => t.has_animation(),
            PartId::Rope(t) => t.has_animation(),
        }
    }

    fn is_resizable(&self) -> bool {
        match self {
            PartId::Ball(t) => t.is_resizable(),
            PartId::Wall(t) => t.is_resizable(),
            PartId::Incline(t) => t.is_resizable(),
            PartId::Mechanical(t) => t.is_resizable(),
            PartId::Electrical(t) => t.is_resizable(),
            PartId::Pyrotechnic(t) => t.is_resizable(),
            PartId::Animal(t) => t.is_resizable(),
            PartId::Gadget(t) => t.is_resizable(),
            PartId::Pipe(t) => t.is_resizable(),
            PartId::Laser(t) => t.is_resizable(),
            PartId::Rope(t) => t.is_resizable(),
        }
    }

    fn is_flippable(&self) -> bool {
        match self {
            PartId::Ball(t) => t.is_flippable(),
            PartId::Wall(t) => t.is_flippable(),
            PartId::Incline(t) => t.is_flippable(),
            PartId::Mechanical(t) => t.is_flippable(),
            PartId::Electrical(t) => t.is_flippable(),
            PartId::Pyrotechnic(t) => t.is_flippable(),
            PartId::Animal(t) => t.is_flippable(),
            PartId::Gadget(t) => t.is_flippable(),
            PartId::Pipe(t) => t.is_flippable(),
            PartId::Laser(t) => t.is_flippable(),
            PartId::Rope(t) => t.is_flippable(),
        }
    }

    fn destructible_by_dynamite(&self) -> bool {
        match self {
            PartId::Ball(t) => t.destructible_by_dynamite(),
            PartId::Wall(t) => t.destructible_by_dynamite(),
            PartId::Incline(t) => t.destructible_by_dynamite(),
            PartId::Mechanical(t) => t.destructible_by_dynamite(),
            PartId::Electrical(t) => t.destructible_by_dynamite(),
            PartId::Pyrotechnic(t) => t.destructible_by_dynamite(),
            PartId::Animal(t) => t.destructible_by_dynamite(),
            PartId::Gadget(t) => t.destructible_by_dynamite(),
            PartId::Pipe(t) => t.destructible_by_dynamite(),
            PartId::Laser(t) => t.destructible_by_dynamite(),
            PartId::Rope(t) => t.destructible_by_dynamite(),
        }
    }

    fn can_be_ramp(&self) -> bool {
        match self {
            PartId::Ball(t) => t.can_be_ramp(),
            PartId::Wall(t) => t.can_be_ramp(),
            PartId::Incline(t) => t.can_be_ramp(),
            PartId::Mechanical(t) => t.can_be_ramp(),
            PartId::Electrical(t) => t.can_be_ramp(),
            PartId::Pyrotechnic(t) => t.can_be_ramp(),
            PartId::Animal(t) => t.can_be_ramp(),
            PartId::Gadget(t) => t.can_be_ramp(),
            PartId::Pipe(t) => t.can_be_ramp(),
            PartId::Laser(t) => t.can_be_ramp(),
            PartId::Rope(t) => t.can_be_ramp(),
        }
    }

    fn has_rope_point(&self) -> bool {
        match self {
            PartId::Ball(t) => t.has_rope_point(),
            PartId::Wall(t) => t.has_rope_point(),
            PartId::Incline(t) => t.has_rope_point(),
            PartId::Mechanical(t) => t.has_rope_point(),
            PartId::Electrical(t) => t.has_rope_point(),
            PartId::Pyrotechnic(t) => t.has_rope_point(),
            PartId::Animal(t) => t.has_rope_point(),
            PartId::Gadget(t) => t.has_rope_point(),
            PartId::Pipe(t) => t.has_rope_point(),
            PartId::Laser(t) => t.has_rope_point(),
            PartId::Rope(t) => t.has_rope_point(),
        }
    }

    fn requires_power(&self) -> bool {
        match self {
            PartId::Ball(t) => t.requires_power(),
            PartId::Wall(t) => t.requires_power(),
            PartId::Incline(t) => t.requires_power(),
            PartId::Mechanical(t) => t.requires_power(),
            PartId::Electrical(t) => t.requires_power(),
            PartId::Pyrotechnic(t) => t.requires_power(),
            PartId::Animal(t) => t.requires_power(),
            PartId::Gadget(t) => t.requires_power(),
            PartId::Pipe(t) => t.requires_power(),
            PartId::Laser(t) => t.requires_power(),
            PartId::Rope(t) => t.requires_power(),
        }
    }

    fn provides_power(&self) -> bool {
        match self {
            PartId::Ball(t) => t.provides_power(),
            PartId::Wall(t) => t.provides_power(),
            PartId::Incline(t) => t.provides_power(),
            PartId::Mechanical(t) => t.provides_power(),
            PartId::Electrical(t) => t.provides_power(),
            PartId::Pyrotechnic(t) => t.provides_power(),
            PartId::Animal(t) => t.provides_power(),
            PartId::Gadget(t) => t.provides_power(),
            PartId::Pipe(t) => t.provides_power(),
            PartId::Laser(t) => t.provides_power(),
            PartId::Rope(t) => t.provides_power(),
        }
    }
}

impl PartId {
    /// A number that orders parts by category, then by declaration within the category.
    pub open spec fn ordinal(self) -> int {
        match self {
            PartId::Ball(t) => 0 + t.variant_index(),
            PartId::Wall(t) => 100 + t.variant_index(),
            PartId::Incline(t) => 200 + t.variant_index(),
            PartId::Mechanical(t) => 300 + t.variant_index(),
            PartId::Electrical(t) => 400 + t.variant_index(),
            PartId::Pyrotechnic(t) => 500 + t.variant_index(),
            PartId::Animal(t) => 600 + t.variant_index(),
            PartId::Gadget(t) => 700 + t.variant_index(),
            PartId::Pipe(t) => 800 + t.variant_index(),
            PartId::Laser(t) => 900 + t.variant_index(),
            PartId::Rope(t) => 1000 + t.variant_index(),
        }
    }
}

/// A named category of parts.
pub struct Category {
    pub name: &'static str,
    pub parts: Vec<PartId>,
}

/// The name and the parts of a category.
pub open spec fn category_view(c: Category) -> (Seq<char>, Seq<PartId>) {
    (c.name@, c.parts@)
}

/// The categories of the catalog, in order, each with its parts in order.
pub open spec fn catalog_table() -> Seq<(Seq<char>, Seq<PartId>)> {
    seq![
        ("Balls"@, seq![
                PartId::Ball(BallType::BowlingBall), PartId::Ball(BallType::Cannonball), PartId::Ball(BallType::Basketball),
                PartId::Ball(BallType::SoccerBall), PartId::Ball(BallType::Baseball), PartId::Ball(BallType::TennisBall),
                PartId::Ball(BallType::SuperBall), PartId::Ball(BallType::Pinball), PartId::Ball(BallType::PoolBall),
                PartId::Ball(BallType::ProgrammableBall),
            ]),
        ("Walls"@, seq![
                PartId::Wall(WallType::BrickWall), PartId::Wall(WallType::YellowBrickWall), PartId::Wall(WallType::CinderBlockWall),
                PartId::Wall(WallType::GrecoRomanWall), PartId::Wall(WallType::WoodenWall), PartId::Wall(WallType::LogWall),
                PartId::Wall(WallType::CautionWall), PartId::Wall(WallType::SandWall), PartId::Wall(WallType::PipeWall),
                PartId::Wall(WallType::CurvedPipeWall), PartId::Wall(WallType::GrassFloor), PartId::Wall(WallType::ScaffoldBarrier),
                PartId::Wall(WallType::WoodenBarrier), PartId::Wall(WallType::LatticeArchway), PartId::Wall(WallType::MarbleArchway),
            ]),
        ("Inclines"@, seq![
                PartId::Incline(InclineType::BrickIncline), PartId::Incline(InclineType::YellowBrickIncline), PartId::Incline(InclineType::GraniteIncline),
            ]),
        ("Mechanical"@, seq![
                PartId::Mechanical(MechanicalType::Gear), PartId::Mechanical(MechanicalType::Pulley), PartId::Mechanical(MechanicalType::Belt),
                PartId::Mechanical(MechanicalType::TeeterTotter), PartId::Mechanical(MechanicalType::ConveyorBelt), PartId::Mechanical(MechanicalType::Trampoline),
                PartId::Mechanical(MechanicalType::JackInTheBox), PartId::Mechanical(MechanicalType::Windmill), PartId::Mechanical(MechanicalType::MandrillMotor),
                PartId::Mechanical(MechanicalType::MouseExerciseWheel), PartId::Mechanical(MechanicalType::TransRotoMatic), PartId::Mechanical(MechanicalType::RotoTransConverter),
                PartId::Mechanical(MechanicalType::TipsyTrailer), PartId::Mechanical(MechanicalType::Scissors), PartId::Mechanical(MechanicalType::HedgeTrimmers),
                PartId::Mechanical(MechanicalType::TinSnips), PartId::Mechanical(MechanicalType::BoxingGlove), PartId::Mechanical(MechanicalType::VacuumCleaner),
                PartId::Mechanical(MechanicalType::PinballBumper), PartId::Mechanical(MechanicalType::Tack), PartId::Mechanical(MechanicalType::Bellows),
            ]),
        ("Electrical"@, seq![
                PartId::Electrical(ElectricalType::Generator), PartId::Electrical(ElectricalType::ElectricalOutlet), PartId::Electrical(ElectricalType::SwitchOutlet),
                PartId::Electrical(ElectricalType::SolarPanel), PartId::Electrical(ElectricalType::LaserActivatedPlug), PartId::Electrical(ElectricalType::ElectricFan),
                PartId::Electrical(ElectricalType::ElectricMotor), PartId::Electrical(ElectricalType::Toaster), PartId::Electrical(ElectricalType::CanOpener),
                PartId::Electrical(ElectricalType::ElectricMixer),
            ]),
        ("Pyrotechnic"@, seq![
                PartId::Pyrotechnic(PyrotechnicType::MagnifyingGlass), PartId::Pyrotechnic(PyrotechnicType::Flashlight), PartId::Pyrotechnic(PyrotechnicType::LavaLamp),
                PartId::Pyrotechnic(PyrotechnicType::Candle), PartId::Pyrotechnic(PyrotechnicType::Dynamite), PartId::Pyrotechnic(PyrotechnicType::DynamitePlunger),
                PartId::Pyrotechnic(PyrotechnicType::Cannon), PartId::Pyrotechnic(PyrotechnicType::Rocket), PartId::Pyrotechnic(PyrotechnicType::Fireworks),
                PartId::Pyrotechnic(PyrotechnicType::RemoteControlBomb), PartId::Pyrotechnic(PyrotechnicType::MatchOnSpring), PartId::Pyrotechnic(PyrotechnicType::Fuse),
            ]),
        ("Animals"@, seq![
                PartId::Animal(AnimalType::PokeyCat), PartId::Animal(AnimalType::MortMouse), PartId::Animal(AnimalType::Cheese),
                PartId::Animal(AnimalType::EdisonAlligator), PartId::Animal(AnimalType::MelSchlemming), PartId::Animal(AnimalType::MelsHouse),
                PartId::Animal(AnimalType::BillsFishTank), PartId::Animal(AnimalType::MouseHole), PartId::Animal(AnimalType::Leprechaun),
            ]),
        ("Gadgets"@, seq![
                PartId::Gadget(GadgetType::SuperPhazer), PartId::Gadget(GadgetType::EggTimer), PartId::Gadget(GadgetType::EyeHook),
                PartId::Gadget(GadgetType::BoatCleat), PartId::Gadget(GadgetType::Gun), PartId::Gadget(GadgetType::AntiGravityPad),
                PartId::Gadget(GadgetType::SantaLamp), PartId::Gadget(GadgetType::LaundryBasket), PartId::Gadget(GadgetType::Bucket),
                PartId::Gadget(GadgetType::LeakyBucket), PartId::Gadget(GadgetType::Balloon), PartId::Gadget(GadgetType::HotAirBalloon),
                PartId::Gadget(GadgetType::GlassBox), PartId::Gadget(GadgetType::WoodenBox), PartId::Gadget(GadgetType::WickerBox),
                PartId::Gadget(GadgetType::MetalBox), PartId::Gadget(GadgetType::CardboardBox), PartId::Gadget(GadgetType::ColorBlock),
                PartId::Gadget(GadgetType::MessageComputer), PartId::Gadget(GadgetType::Teapot),
            ]),
        ("Pipes"@, seq![
                PartId::Pipe(PipeType::StraightPipe), PartId::Pipe(PipeType::TConnector), PartId::Pipe(PipeType::CurvedPipe),
                PartId::Pipe(PipeType::AcceleratorTube),
            ]),
        ("Lasers"@, seq![
                PartId::Laser(LaserType::RedLaser), PartId::Laser(LaserType::GreenLaser), PartId::Laser(LaserType::BlueLaser),
                PartId::Laser(LaserType::AngledMirror), PartId::Laser(LaserType::LaserMixer), PartId::Laser(LaserType::LaserDetector),
                PartId::Laser(LaserType::LaserActivatedPlug),
            ]),
        ("Ropes"@, seq![
                PartId::Rope(RopeType::Rope), PartId::Rope(RopeType::SteelCable),
            ]),
    ]
}

/// Return all parts grouped by category.
pub fn catalog() -> (r: Vec<Category>)
    ensures
        r@.map_values(|c: Category| category_view(c)) == catalog_table(),
{
    vec![
        Category {
            name: "Balls",
            parts: vec![
                PartId::Ball(BallType::BowlingBall), PartId::Ball(BallType::Cannonball), PartId::Ball(BallType::Basketball),
                PartId::Ball(BallType::SoccerBall), PartId::Ball(BallType::Baseball), PartId::Ball(BallType::TennisBall),
                PartId::Ball(BallType::SuperBall), PartId::Ball(BallType::Pinball), PartId::Ball(BallType::PoolBall),
                PartId::Ball(BallType::ProgrammableBall),
            ],
        },
        Category {
            name: "Walls",
            parts: vec![
                PartId::Wall(WallType::BrickWall), PartId::Wall(WallType::YellowBrickWall), PartId::Wall(WallType::CinderBlockWall),
                PartId::Wall(WallType::GrecoRomanWall), PartId::Wall(WallType::WoodenWall), PartId::Wall(WallType::LogWall),
                PartId::Wall(WallType::CautionWall), PartId::Wall(WallType::SandWall), PartId::Wall(WallType::PipeWall),
                PartId::Wall(WallType::CurvedPipeWall), PartId::Wall(WallType::GrassFloor), PartId::Wall(WallType::ScaffoldBarrier),
                PartId::Wall(WallType::WoodenBarrier), PartId::Wall(WallType::LatticeArchway), PartId::Wall(WallType::MarbleArchway),
            ],
        },
        Category {
            name: "Inclines",
            parts: vec![
                PartId::Incline(InclineType::BrickIncline), PartId::Incline(InclineType::YellowBrickIncline), PartId::Incline(InclineType::GraniteIncline),
            ],
        },
        Category {
            name: "Mechanical",
            parts: vec![
                PartId::Mechanical(MechanicalType::Gear), PartId::Mechanical(MechanicalType::Pulley), PartId::Mechanical(MechanicalType::Belt),
                PartId::Mechanical(MechanicalType::TeeterTotter), PartId::Mechanical(MechanicalType::ConveyorBelt), PartId::Mechanical(MechanicalType::Trampoline),
                PartId::Mechanical(MechanicalType::JackInTheBox), PartId::Mechanical(MechanicalType::Windmill), PartId::Mechanical(MechanicalType::MandrillMotor),
                PartId::Mechanical(MechanicalType::MouseExerciseWheel), PartId::Mechanical(MechanicalType::TransRotoMatic), PartId::Mechanical(MechanicalType::RotoTransConverter),
                PartId::Mechanical(MechanicalType::TipsyTrailer), PartId::Mechanical(MechanicalType::Scissors), PartId::Mechanical(MechanicalType::HedgeTrimmers),
                PartId::Mechanical(MechanicalType::TinSnips), PartId::Mechanical(MechanicalType::BoxingGlove), PartId::Mechanical(MechanicalType::VacuumCleaner),
                PartId::Mechanical(MechanicalType::PinballBumper), PartId::Mechanical(MechanicalType::Tack), PartId::Mechanical(MechanicalType::Bellows),
            ],
        },
        Category {
            name: "Electrical",
            parts: vec![
                PartId::Electrical(ElectricalType::Generator), PartId::Electrical(ElectricalType::ElectricalOutlet), PartId::Electrical(ElectricalType::SwitchOutlet),
                PartId::Electrical(ElectricalType::SolarPanel), PartId::Electrical(ElectricalType::LaserActivatedPlug), PartId::Electrical(ElectricalType::ElectricFan),
                PartId::Electrical(ElectricalType::ElectricMotor), PartId::Electrical(ElectricalType::Toaster), PartId::Electrical(ElectricalType::CanOpener),
                PartId::Electrical(ElectricalType::ElectricMixer),
            ],
        },
        Category {
            name: "Pyrotechnic",
            parts: vec![
                PartId::Pyrotechnic(PyrotechnicType::MagnifyingGlass), PartId::Pyrotechnic(PyrotechnicType::Flashlight), PartId::Pyrotechnic(PyrotechnicType::LavaLamp),
                PartId::Pyrotechnic(PyrotechnicType::Candle), PartId::Pyrotechnic(PyrotechnicType::Dynamite), PartId::Pyrotechnic(PyrotechnicType::DynamitePlunger),
                PartId::Pyrotechnic(PyrotechnicType::Cannon), PartId::Pyrotechnic(PyrotechnicType::Rocket), PartId::Pyrotechnic(PyrotechnicType::Fireworks),
                PartId::Pyrotechnic(PyrotechnicType::RemoteControlBomb), PartId::Pyrotechnic(PyrotechnicType::MatchOnSpring), PartId::Pyrotechnic(PyrotechnicType::Fuse),
            ],
        },
        Category {
            name: "Animals",
            parts: vec![
                PartId::Animal(AnimalType::PokeyCat), PartId::Animal(AnimalType::MortMouse), PartId::Animal(AnimalType::Cheese),
                PartId::Animal(AnimalType::EdisonAlligator), PartId::Animal(AnimalType::MelSchlemming), PartId::Animal(AnimalType::MelsHouse),
                PartId::Animal(AnimalType::BillsFishTank), PartId::Animal(AnimalType::MouseHole), PartId::Animal(AnimalType::Leprechaun),
            ],
        },
        Category {
            name: "Gadgets",
            parts: vec![
                PartId::Gadget(GadgetType::SuperPhazer), PartId::Gadget(GadgetType::EggTimer), PartId::Gadget(GadgetType::EyeHook),
                PartId::Gadget(GadgetType::BoatCleat), PartId::Gadget(GadgetType::Gun), PartId::Gadget(GadgetType::AntiGravityPad),
                PartId::Gadget(GadgetType::SantaLamp), PartId::Gadget(GadgetType::LaundryBasket), PartId::Gadget(GadgetType::Bucket),
                PartId::Gadget(GadgetType::LeakyBucket), PartId::Gadget(GadgetType::Balloon), PartId::Gadget(GadgetType::HotAirBalloon),
                PartId::Gadget(GadgetType::GlassBox), PartId::Gadget(GadgetType::WoodenBox), PartId::Gadget(GadgetType::WickerBox),
                PartId::Gadget(GadgetType::MetalBox), PartId::Gadget(GadgetType::CardboardBox), PartId::Gadget(GadgetType::ColorBlock),
                PartId::Gadget(GadgetType::MessageComputer), PartId::Gadget(GadgetType::Teapot),
            ],
        },
        Category {
            name: "Pipes",
            parts: vec![
                PartId::Pipe(PipeType::StraightPipe), PartId::Pipe(PipeType::TConnector), PartId::Pipe(PipeType::CurvedPipe),
                PartId::Pipe(PipeType::AcceleratorTube),
            ],
        },
        Category {
            name: "Lasers",
            parts: vec![
                PartId::Laser(LaserType::RedLaser), PartId::Laser(LaserType::GreenLaser), PartId::Laser(LaserType::BlueLaser),
                PartId::Laser(LaserType::AngledMirror), PartId::Laser(LaserType::LaserMixer), PartId::Laser(LaserType::LaserDetector),
                PartId::Laser(LaserType::LaserActivatedPlug),
            ],
        },
        Category {
            name: "Ropes",
            parts: vec![
                PartId::Rope(RopeType::Rope), PartId::Rope(RopeType::SteelCable),
            ],
        },
    ]
}

/// Every part that a category of the catalog lists belongs to that category.
pub proof fn lemma_catalog_parts_match_category(i: int, j: int)
    requires
        0 <= i < catalog_table().len(),
        0 <= j < catalog_table()[i].1.len(),
    ensures
        catalog_table()[i].1[j].category_text() == catalog_table()[i].0,
{
}

/// The part at position `j` of catalog category 0 is variant `j` of that category's type.
proof fn lemma_catalog_positions_0(j: int)
    requires
        0 <= j < catalog_table()[0].1.len(),
    ensures
        catalog_table()[0].1[j].category_index() == 0,
        catalog_table()[0].1[j].index_in_category() == j,
{
    if j == 0 {
    } else if j == 1 {
    } else if j == 2 {
    } else if j == 3 {
    } else if j == 4 {
    } else if j == 5 {
    } else if j == 6 {
    } else if j == 7 {
    } else if j == 8 {
    } else if j == 9 {
    }
}

/// The part at position `j` of catalog category 1 is variant `j` of that category's type.
proof fn lemma_catalog_positions_1(j: int)
    requires
        0 <= j < catalog_table()[1].1.len(),
    ensures
        catalog_table()[1].1[j].category_index() == 1,
        catalog_table()[1].1[j].index_in_category() == j,
{
    if j == 0 {
    } else if j == 1 {
    } else if j == 2 {
    } else if j == 3 {
    } else if j == 4 {
    } else if j == 5 {
    } else if j == 6 {
    } else if j == 7 {
    } else if j == 8 {
    } else if j == 9 {
    } else if j == 10 {
    } else if j == 11 {
    } else if j == 12 {
    } else if j == 13 {
    } else if j == 14 {
    }
}

/// The part at position `j` of catalog category 2 is variant `j` of that category's type.
proof fn lemma_catalog_positions_2(j: int)
    requires
        0 <= j < catalog_table()[2].1.len(),
    ensures
        catalog_table()[2].1[j].category_index() == 2,
        catalog_table()[2].1[j].index_in_category() == j,
{
    if j == 0 {
    } else if j == 1 {
    } else if j == 2 {
    }
}

/// The part at position `j` of catalog category 3 is variant `j` of that category's type.
proof fn lemma_catalog_positions_3(j: int)
    requires
        0 <= j < catalog_table()[3].1.len(),
    ensures
        catalog_table()[3].1[j].category_index() == 3,
        catalog_table()[3].1[j].index_in_category() == j,
{
    if j == 0 {
    } else if j == 1 {
    } else if j == 2 {
    } else if j == 3 {
    } else if j == 4 {
    } else if j == 5 {
    } else if j == 6 {
    } else if j == 7 {
    } else if j == 8 {
    } else if j == 9 {
    } else if j == 10 {
    } else if j == 11 {
    } else if j == 12 {
    } else if j == 13 {
    } else if j == 14 {
    } else if j == 15 {
    } else if j == 16 {
    } else if j == 17 {
    } else if j == 18 {
    } else if j == 19 {
    } else if j == 20 {
    }
}

/// The part at position `j` of catalog category 4 is variant `j` of that category's type.
proof fn lemma_catalog_positions_4(j: int)
    requires
        0 <= j < catalog_table()[4].1.len(),
    ensures
        catalog_table()[4].1[j].category_index() == 4,
        catalog_table()[4].1[j].index_in_category() == j,
{
    if j == 0 {
    } else if j == 1 {
    } else if j == 2 {
    } else if j == 3 {
    } else if j == 4 {
    } else if j == 5 {
    } else if j == 6 {
    } else if j == 7 {
    } else if j == 8 {
    } else if j == 9 {
    }
}

/// The part at position `j` of catalog category 5 is variant `j` of that category's type.
proof fn lemma_catalog_positions_5(j: int)
    requires
        0 <= j < catalog_table()[5].1.len(),
    ensures
        catalog_table()[5].1[j].category_index() == 5,
        catalog_table()[5].1[j].index_in_category() == j,
{
    if j == 0 {
    } else if j == 1 {
    } else if j == 2 {
    } else if j == 3 {
    } else if j == 4 {
    } else if j == 5 {
    } else if j == 6 {
    } else if j == 7 {
    } else if j == 8 {
    } else if j == 9 {
    } else if j == 10 {
    } else if j == 11 {
    }
}

/// The part at position `j` of catalog category 6 is variant `j` of that category's type.
proof fn lemma_catalog_positions_6(j: int)
    requires
        0 <= j < catalog_table()[6].1.len(),
    ensures
        catalog_table()[6].1[j].category_index() == 6,
        catalog_table()[6].1[j].index_in_category() == j,
{
    if j == 0 {
    } else if j == 1 {
    } else if j == 2 {
    } else if j == 3 {
    } else if j == 4 {
    } else if j == 5 {
    } else if j == 6 {
    } else if j == 7 {
    } else if j == 8 {
    }
}

/// The part at position `j` of catalog category 7 is variant `j` of that category's type.
proof fn lemma_catalog_positions_7(j: int)
    requires
        0 <= j < catalog_table()[7].1.len(),
    ensures
        catalog_table()[7].1[j].category_index() == 7,
        catalog_table()[7].1[j].index_in_category() == j,
{
    if j == 0 {
    } else if j == 1 {
    } else if j == 2 {
    } else if j == 3 {
    } else if j == 4 {
    } else if j == 5 {
    } else if j == 6 {
    } else if j == 7 {
    } else if j == 8 {
    } else if j == 9 {
    } else if j == 10 {
    } else if j == 11 {
    } else if j == 12 {
    } else if j == 13 {
    } else if j == 14 {
    } else if j == 15 {
    } else if j == 16 {
    } else if j == 17 {
    } else if j == 18 {
    } else if j == 19 {
    }
}

/// The part at position `j` of catalog category 8 is variant `j` of that category's type.
proof fn lemma_catalog_positions_8(j: int)
    requires
        0 <= j < catalog_table()[8].1.len(),
    ensures
        catalog_table()[8].1[j].category_index() == 8,
        catalog_table()[8].1[j].index_in_category() == j,
{
    if j == 0 {
    } else if j == 1 {
    } else if j == 2 {
    } else if j == 3 {
    }
}

/// The part at position `j` of catalog category 9 is variant `j` of that category's type.
proof fn lemma_catalog_positions_9(j: int)
    requires
        0 <= j < catalog_table()[9].1.len(),
    ensures
        catalog_table()[9].1[j].category_index() == 9,
        catalog_table()[9].1[j].index_in_category() == j,
{
    if j == 0 {
    } else if j == 1 {
    } else if j == 2 {
    } else if j == 3 {
    } else if j == 4 {
    } else if j == 5 {
    } else if j == 6 {
    }
}

/// The part at position `j` of catalog category 10 is variant `j` of that category's type.
proof fn lemma_catalog_positions_10(j: int)
    requires
        0 <= j < catalog_table()[10].1.len(),
    ensures
        catalog_table()[10].1[j].category_index() == 10,
        catalog_table()[10].1[j].index_in_category() == j,
{
    if j == 0 {
    } else if j == 1 {
    }
}

/// The part at position `j` of category `i` of the catalog belongs to
/// category `i` and is variant `j` of its type.
pub proof fn lemma_catalog_positions(i: int, j: int)
    requires
        0 <= i < catalog_table().len(),
        0 <= j < catalog_table()[i].1.len(),
    ensures
        catalog_table()[i].1[j].category_index() == i,
        catalog_table()[i].1[j].index_in_category() == j,
{
    if i == 0 {
        lemma_catalog_positions_0(j);
    } else if i == 1 {
        lemma_catalog_positions_1(j);
    } else if i == 2 {
        lemma_catalog_positions_2(j);
    } else if i == 3 {
        lemma_catalog_positions_3(j);
    } else if i == 4 {
        lemma_catalog_positions_4(j);
    } else if i == 5 {
        lemma_catalog_positions_5(j);
    } else if i == 6 {
        lemma_catalog_positions_6(j);
    } else if i == 7 {
        lemma_catalog_positions_7(j);
    } else if i == 8 {
        lemma_catalog_positions_8(j);
    } else if i == 9 {
        lemma_catalog_positions_9(j);
    } else if i == 10 {
        lemma_catalog_positions_10(j);
    }
}

/// Each category of the catalog lists its parts in declaration order, so no
/// part is listed twice.
pub proof fn lemma_catalog_in_declaration_order(i: int, j: int, k: int)
    requires
        0 <= i < catalog_table().len(),
        0 <= j < k < catalog_table()[i].1.len(),
    ensures
        catalog_table()[i].1[j].ordinal() < catalog_table()[i].1[k].ordinal(),
{
    lemma_catalog_positions(i, j);
    lemma_catalog_positions(i, k);
}

impl PartId {
    /// The position of the part's category in the catalog.
    pub open spec fn category_index(self) -> int {
        match self {
            PartId::Ball(_) => 0,
            PartId::Wall(_) => 1,
            PartId::Incline(_) => 2,
            PartId::Mechanical(_) => 3,
            PartId::Electrical(_) => 4,
            PartId::Pyrotechnic(_) => 5,
            PartId::Animal(_) => 6,
            PartId::Gadget(_) => 7,
            PartId::Pipe(_) => 8,
            PartId::Laser(_) => 9,
            PartId::Rope(_) => 10,
        }
    }

    /// The position of the part's variant among those of its type.
    pub open spec fn index_in_category(self) -> int {
        self.ordinal() - 100 * self.category_index()
    }
}

/// Every part can be in at least one state.
pub proof fn lemma_every_part_has_a_state(p: PartId)
    ensures
        p.state_table().len() >= 1,
{
}

/// The catalog lists every part: in the category the part names, at the
/// position of its type's variant.
pub proof fn lemma_catalog_lists_every_part(p: PartId)
    ensures
        0 <= p.category_index() < catalog_table().len(),
        catalog_table()[p.category_index()].0 == p.category_text(),
        0 <= p.index_in_category() < catalog_table()[p.category_index()].1.len(),
        catalog_table()[p.category_index()].1[p.index_in_category()] == p,
{
    match p {
        PartId::Ball(t) => match t {
            BallType::BowlingBall => assert(catalog_table()[p.category_index()].1[0] == p),
            BallType::Cannonball => assert(catalog_table()[p.category_index()].1[1] == p),
            BallType::Basketball => assert(catalog_table()[p.category_index()].1[2] == p),
            BallType::SoccerBall => assert(catalog_table()[p.category_index()].1[3] == p),
            BallType::Baseball => assert(catalog_table()[p.category_index()].1[4] == p),
            BallType::TennisBall => assert(catalog_table()[p.category_index()].1[5] == p),
            BallType::SuperBall => assert(catalog_table()[p.category_index()].1[6] == p),
            BallType::Pinball => assert(catalog_table()[p.category_index()].1[7] == p),
            BallType::PoolBall => assert(catalog_table()[p.category_index()].1[8] == p),
            BallType::ProgrammableBall => assert(catalog_table()[p.category_index()].1[9] == p),
        },
        PartId::Wall(t) => match t {
            WallType::BrickWall => assert(catalog_table()[p.category_index()].1[0] == p),
            WallType::YellowBrickWall => assert(catalog_table()[p.category_index()].1[1] == p),
            WallType::CinderBlockWall => assert(catalog_table()[p.category_index()].1[2] == p),
            WallType::GrecoRomanWall => assert(catalog_table()[p.category_index()].1[3] == p),
            WallType::WoodenWall => assert(catalog_table()[p.category_index()].1[4] == p),
            WallType::LogWall => assert(catalog_table()[p.category_index()].1[5] == p),
            WallType::CautionWall => assert(catalog_table()[p.category_index()].1[6] == p),
            WallType::SandWall => assert(catalog_table()[p.category_index()].1[7] == p),
            WallType::PipeWall => assert(catalog_table()[p.category_index()].1[8] == p),
            WallType::CurvedPipeWall => assert(catalog_table()[p.category_index()].1[9] == p),
            WallType::GrassFloor => assert(catalog_table()[p.category_index()].1[10] == p),
            WallType::ScaffoldBarrier => assert(catalog_table()[p.category_index()].1[11] == p),
            WallType::WoodenBarrier => assert(catalog_table()[p.category_index()].1[12] == p),
            WallType::LatticeArchway => assert(catalog_table()[p.category_index()].1[13] == p),
            WallType::MarbleArchway => assert(catalog_table()[p.category_index()].1[14] == p),
        },
        PartId::Incline(t) => match t {
            InclineType::BrickIncline => assert(catalog_table()[p.category_index()].1[0] == p),
            InclineType::YellowBrickIncline => assert(catalog_table()[p.category_index()].1[1] == p),
            InclineType::GraniteIncline => assert(catalog_table()[p.category_index()].1[2] == p),
        },
        PartId::Mechanical(t) => match t {
            MechanicalType::Gear => assert(catalog_table()[p.category_index()].1[0] == p),
            MechanicalType::Pulley => assert(catalog_table()[p.category_index()].1[1] == p),
            MechanicalType::Belt => assert(catalog_table()[p.category_index()].1[2] == p),
            MechanicalType::TeeterTotter => assert(catalog_table()[p.category_index()].1[3] == p),
            MechanicalType::ConveyorBelt => assert(catalog_table()[p.category_index()].1[4] == p),
            MechanicalType::Trampoline => assert(catalog_table()[p.category_index()].1[5] == p),
            MechanicalType::JackInTheBox => assert(catalog_table()[p.category_index()].1[6] == p),
            MechanicalType::Windmill => assert(catalog_table()[p.category_index()].1[7] == p),
            MechanicalType::MandrillMotor => assert(catalog_table()[p.category_index()].1[8] == p),
            MechanicalType::MouseExerciseWheel => assert(catalog_table()[p.category_index()].1[9] == p),
            MechanicalType::TransRotoMatic => assert(catalog_table()[p.category_index()].1[10] == p),
            MechanicalType::RotoTransConverter => assert(catalog_table()[p.category_index()].1[11] == p),
            MechanicalType::TipsyTrailer => assert(catalog_table()[p.category_index()].1[12] == p),
            MechanicalType::Scissors => assert(catalog_table()[p.category_index()].1[13] == p),
            MechanicalType::HedgeTrimmers => assert(catalog_table()[p.category_index()].1[14] == p),
            MechanicalType::TinSnips => assert(catalog_table()[p.category_index()].1[15] == p),
            MechanicalType::BoxingGlove => assert(catalog_table()[p.category_index()].1[16] == p),
            MechanicalType::VacuumCleaner => assert(catalog_table()[p.category_index()].1[17] == p),
            MechanicalType::PinballBumper => assert(catalog_table()[p.category_index()].1[18] == p),
            MechanicalType::Tack => assert(catalog_table()[p.category_index()].1[19] == p),
            MechanicalType::Bellows => assert(catalog_table()[p.category_index()].1[20] == p),
        },
        PartId::Electrical(t) => match t {
            ElectricalType::Generator => assert(catalog_table()[p.category_index()].1[0] == p),
            ElectricalType::ElectricalOutlet => assert(catalog_table()[p.category_index()].1[1] == p),
            ElectricalType::SwitchOutlet => assert(catalog_table()[p.category_index()].1[2] == p),
            ElectricalType::SolarPanel => assert(catalog_table()[p.category_index()].1[3] == p),
            ElectricalType::LaserActivatedPlug => assert(catalog_table()[p.category_index()].1[4] == p),
            ElectricalType::ElectricFan => assert(catalog_table()[p.category_index()].1[5] == p),
            ElectricalType::ElectricMotor => assert(catalog_table()[p.category_index()].1[6] == p),
            ElectricalType::Toaster => assert(catalog_table()[p.category_index()].1[7] == p),
            ElectricalType::CanOpener => assert(catalog_table()[p.category_index()].1[8] == p),
            ElectricalType::ElectricMixer => assert(catalog_table()[p.category_index()].1[9] == p),
        },
        PartId::Pyrotechnic(t) => match t {
            PyrotechnicType::MagnifyingGlass => assert(catalog_table()[p.category_index()].1[0] == p),
            PyrotechnicType::Flashlight => assert(catalog_table()[p.category_index()].1[1] == p),
            PyrotechnicType::LavaLamp => assert(catalog_table()[p.category_index()].1[2] == p),
            PyrotechnicType::Candle => assert(catalog_table()[p.category_index()].1[3] == p),
            PyrotechnicType::Dynamite => assert(catalog_table()[p.category_index()].1[4] == p),
            PyrotechnicType::DynamitePlunger => assert(catalog_table()[p.category_index()].1[5] == p),
            PyrotechnicType::Cannon => assert(catalog_table()[p.category_index()].1[6] == p),
            PyrotechnicType::Rocket => assert(catalog_table()[p.category_index()].1[7] == p),
            PyrotechnicType::Fireworks => assert(catalog_table()[p.category_index()].1[8] == p),
            PyrotechnicType::RemoteControlBomb => assert(catalog_table()[p.category_index()].1[9] == p),
            PyrotechnicType::MatchOnSpring => assert(catalog_table()[p.category_index()].1[10] == p),
            PyrotechnicType::Fuse => assert(catalog_table()[p.category_index()].1[11] == p),
        },
        PartId::Animal(t) => match t {
            AnimalType::PokeyCat => assert(catalog_table()[p.category_index()].1[0] == p),
            AnimalType::MortMouse => assert(catalog_table()[p.category_index()].1[1] == p),
            AnimalType::Cheese => assert(catalog_table()[p.category_index()].1[2] == p),
            AnimalType::EdisonAlligator => assert(catalog_table()[p.category_index()].1[3] == p),
            AnimalType::MelSchlemming => assert(catalog_table()[p.category_index()].1[4] == p),
            AnimalType::MelsHouse => assert(catalog_table()[p.category_index()].1[5] == p),
            AnimalType::BillsFishTank => assert(catalog_table()[p.category_index()].1[6] == p),
            AnimalType::MouseHole => assert(catalog_table()[p.category_index()].1[7] == p),
            AnimalType::Leprechaun => assert(catalog_table()[p.category_index()].1[8] == p),
        },
        PartId::Gadget(t) => match t {
            GadgetType::SuperPhazer => assert(catalog_table()[p.category_index()].1[0] == p),
            GadgetType::EggTimer => assert(catalog_table()[p.category_index()].1[1] == p),
            GadgetType::EyeHook => assert(catalog_table()[p.category_index()].1[2] == p),
            GadgetType::BoatCleat => assert(catalog_table()[p.category_index()].1[3] == p),
            GadgetType::Gun => assert(catalog_table()[p.category_index()].1[4] == p),
            GadgetType::AntiGravityPad => assert(catalog_table()[p.category_index()].1[5] == p),
            GadgetType::SantaLamp => assert(catalog_table()[p.category_index()].1[6] == p),
            GadgetType::LaundryBasket => assert(catalog_table()[p.category_index()].1[7] == p),
            GadgetType::Bucket => assert(catalog_table()[p.category_index()].1[8] == p),
            GadgetType::LeakyBucket => assert(catalog_table()[p.category_index()].1[9] == p),
            GadgetType::Balloon => assert(catalog_table()[p.category_index()].1[10] == p),
            GadgetType::HotAirBalloon => assert(catalog_table()[p.category_index()].1[11] == p),
            GadgetType::GlassBox => assert(catalog_table()[p.category_index()].1[12] == p),
            GadgetType::WoodenBox => assert(catalog_table()[p.category_index()].1[13] == p),
            GadgetType::WickerBox => assert(catalog_table()[p.category_index()].1[14] == p),
            GadgetType::MetalBox => assert(catalog_table()[p.category_index()].1[15] == p),
            GadgetType::CardboardBox => assert(catalog_table()[p.category_index()].1[16] == p),
            GadgetType::ColorBlock => assert(catalog_table()[p.category_index()].1[17] == p),
            GadgetType::MessageComputer => assert(catalog_table()[p.category_index()].1[18] == p),
            GadgetType::Teapot => assert(catalog_table()[p.category_index()].1[19] == p),
        },
        PartId::Pipe(t) => match t {
            PipeType::StraightPipe => assert(catalog_table()[p.category_index()].1[0] == p),
            PipeType::TConnector => assert(catalog_table()[p.category_index()].1[1] == p),
            PipeType::CurvedPipe => assert(catalog_table()[p.category_index()].1[2] == p),
            PipeType::AcceleratorTube => assert(catalog_table()[p.category_index()].1[3] == p),
        },
        PartId::Laser(t) => match t {
            LaserType::RedLaser => assert(catalog_table()[p.category_index()].1[0] == p),
            LaserType::GreenLaser => assert(catalog_table()[p.category_index()].1[1] == p),
            LaserType::BlueLaser => assert(catalog_table()[p.category_index()].1[2] == p),
            LaserType::AngledMirror => assert(catalog_table()[p.category_index()].1[3] == p),
            LaserType::LaserMixer => assert(catalog_table()[p.category_index()].1[4] == p),
            LaserType::LaserDetector => assert(catalog_table()[p.category_index()].1[5] == p),
            LaserType::LaserActivatedPlug => assert(catalog_table()[p.category_index()].1[6] == p),
        },
        PartId::Rope(t) => match t {
            RopeType::Rope => assert(catalog_table()[p.category_index()].1[0] == p),
            RopeType::SteelCable => assert(catalog_table()[p.category_index()].1[1] == p),
        },
    }
}

} // verus!
