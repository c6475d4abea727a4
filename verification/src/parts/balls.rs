//! Balls: dynamic round parts.
use vstd::prelude::*;

use crate::parts::{PartDef, StateDef};
use crate::render::cells::{place_centered, CellRect, Glyph};
use crate::render::text_chars::{DARK_GRAY, MAGENTA, ORANGE, RED, SILVER, TEAL, WHITE, YELLOW_GREEN};

verus! {

#[derive(Debug, Clone, Copy, PartialEq, Eq, Structural)]
pub enum BallType {
    BowlingBall,
    Cannonball,
    Basketball,
    SoccerBall,
    Baseball,
    TennisBall,
    SuperBall,
    Pinball,
    PoolBall,
    ProgrammableBall,
}

impl BallType {
    /// Position of the variant in the declaration of the enum.
    pub open spec fn variant_index(&self) -> int {
        match self {
            BallType::BowlingBall => 0,
            BallType::Cannonball => 1,
            BallType::Basketball => 2,
            BallType::SoccerBall => 3,
            BallType::Baseball => 4,
            BallType::TennisBall => 5,
            BallType::SuperBall => 6,
            BallType::Pinball => 7,
            BallType::PoolBall => 8,
            BallType::ProgrammableBall => 9,
        }
    }

    /// Color at the center of the ball.
    pub open spec fn center_rgb(&self) -> [u8; 3] {
        match self {
            BallType::BowlingBall => [60, 60, 70],
            BallType::Cannonball => [40, 40, 45],
            BallType::Basketball => [240, 150, 40],
            BallType::SoccerBall => [250, 250, 250],
            BallType::Baseball => [250, 245, 240],
            BallType::TennisBall => [200, 230, 60],
            BallType::SuperBall => [220, 60, 220],
            BallType::Pinball => [210, 210, 220],
            BallType::PoolBall => [200, 40, 40],
            BallType::ProgrammableBall => [0, 190, 190],
        }
    }

    pub fn center_color(&self) -> (r: [u8; 3])
        ensures
            r == self.center_rgb(),
    {
        match self {
            BallType::BowlingBall => [60, 60, 70],
            BallType::Cannonball => [40, 40, 45],
            BallType::Basketball => [240, 150, 40],
            BallType::SoccerBall => [250, 250, 250],
            BallType::Baseball => [250, 245, 240],
            BallType::TennisBall => [200, 230, 60],
            BallType::SuperBall => [220, 60, 220],
            BallType::Pinball => [210, 210, 220],
            BallType::PoolBall => [200, 40, 40],
            BallType::ProgrammableBall => [0, 190, 190],
        }
    }

    /// Color at the rim of the ball.
    pub open spec fn edge_rgb(&self) -> [u8; 3] {
        match self {
            BallType::BowlingBall => [30, 30, 35],
            BallType::Cannonball => [20, 20, 22],
            BallType::Basketball => [180, 90, 20],
            BallType::SoccerBall => [200, 200, 200],
            BallType::Baseball => [220, 210, 200],
            BallType::TennisBall => [140, 180, 30],
            BallType::SuperBall => [140, 20, 140],
            BallType::Pinball => [150, 150, 160],
            BallType::PoolBall => [120, 20, 20],
            BallType::ProgrammableBall => [0, 120, 120],
        }
    }

    pub fn edge_color(&self) -> (r: [u8; 3])
        ensures
            r == self.edge_rgb(),
    {
        match self {
            BallType::BowlingBall => [30, 30, 35],
            BallType::Cannonball => [20, 20, 22],
            BallType::Basketball => [180, 90, 20],
            BallType::SoccerBall => [200, 200, 200],
            BallType::Baseball => [220, 210, 200],
            BallType::TennisBall => [140, 180, 30],
            BallType::SuperBall => [140, 20, 140],
            BallType::Pinball => [150, 150, 160],
            BallType::PoolBall => [120, 20, 20],
            BallType::ProgrammableBall => [0, 120, 120],
        }
    }

    /// Radius of the ball in pixels.
    pub open spec fn radius_px(&self) -> u32 {
        match self {
            BallType::BowlingBall => 16,
            BallType::Cannonball => 12,
            BallType::Basketball => 14,
            BallType::SoccerBall => 13,
            BallType::Baseball => 6,
            BallType::TennisBall => 5,
            BallType::SuperBall => 7,
            BallType::Pinball => 5,
            BallType::PoolBall => 6,
            BallType::ProgrammableBall => 8,
        }
    }

    pub fn radius(&self) -> (r: u32)
        ensures
            r == self.radius_px(),
    {
        match self {
            BallType::BowlingBall => 16,
            BallType::Cannonball => 12,
            BallType::Basketball => 14,
            BallType::SoccerBall => 13,
            BallType::Baseball => 6,
            BallType::TennisBall => 5,
            BallType::SuperBall => 7,
            BallType::Pinball => 5,
            BallType::PoolBall => 6,
            BallType::ProgrammableBall => 8,
        }
    }
}

impl PartDef for BallType {
    open spec fn name_text(&self) -> Seq<char> {
        match self {
            BallType::BowlingBall => "Bowling Ball"@,
            BallType::Cannonball => "Cannonball"@,
            BallType::Basketball => "Basketball"@,
            BallType::SoccerBall => "Soccer Ball"@,
            BallType::Baseball => "Baseball"@,
            BallType::TennisBall => "Tennis Ball"@,
            BallType::SuperBall => "Super Ball"@,
            BallType::Pinball => "Pinball"@,
            BallType::PoolBall => "Pool Ball"@,
            BallType::ProgrammableBall => "Programmable Ball"@,
        }
    }

    open spec fn description_text(&self) -> Seq<char> {
        match self {
            BallType::BowlingBall => "Heavy ball with 3 finger holes"@,
            BallType::Cannonball => "Dense iron ball"@,
            BallType::Basketball => "Orange ball with seam lines"@,
            BallType::SoccerBall => "White ball with pentagon pattern"@,
            BallType::Baseball => "White ball with red stitching"@,
            BallType::TennisBall => "Yellow-green fuzzy ball"@,
            BallType::SuperBall => "Highly elastic bouncy ball (gains energy)"@,
            BallType::Pinball => "Small metallic silver ball"@,
            BallType::PoolBall => "Colored ball with number, zero-gravity float"@,
            BallType::ProgrammableBall => "Ball with adjustable physics properties"@,
        }
    }

    open spec fn category_text(&self) -> Seq<char> {
        "Balls"@
    }

    open spec fn size_px(&self) -> (u32, u32) {
        let d = (self.radius_px() * 2) as u32;
        (d, d)
    }

    open spec fn icon_glyph(&self) -> char {
        match self {
            BallType::BowlingBall => '\u{2B24}', // ⬤
            _ => '\u{25CF}', // ●
        }
    }

    open spec fn icon_rgb(&self) -> [u8; 3] {
        match self {
            BallType::BowlingBall => DARK_GRAY,
            BallType::Cannonball => DARK_GRAY,
            BallType::Basketball => ORANGE,
            BallType::SoccerBall => WHITE,
            BallType::Baseball => WHITE,
            BallType::TennisBall => YELLOW_GREEN,
            BallType::SuperBall => MAGENTA,
            BallType::Pinball => SILVER,
            BallType::PoolBall => RED,
            BallType::ProgrammableBall => TEAL,
        }
    }

    open spec fn text_char(&self, flipped: bool) -> char {
        self.icon_glyph()
    }

    open spec fn state_table(&self) -> Seq<(Seq<char>, Seq<char>)> {
        seq![
            ("Idle"@, "At rest or placed"@),
            ("Moving"@, "In motion during simulation"@),
            ("AtRest"@, "Velocity < 0.5 px/s for 30 ticks"@),
        ]
    }

    open spec fn animated(&self) -> bool {
        false
    }

    open spec fn resizable(&self) -> bool {
        false
    }

    open spec fn flippable(&self) -> bool {
        false
    }

    open spec fn dynamite_destructible(&self) -> bool {
        false
    }

    open spec fn ramp_capable(&self) -> bool {
        false
    }

    open spec fn rope_attachable(&self) -> bool {
        false
    }

    open spec fn power_consumer(&self) -> bool {
        false
    }

    open spec fn power_source(&self) -> bool {
        false
    }

    fn name(&self) -> &'static str {
        match self {
            BallType::BowlingBall => "Bowling Ball",
            BallType::Cannonball => "Cannonball",
            BallType::Basketball => "Basketball",
            BallType::SoccerBall => "Soccer Ball",
            BallType::Baseball => "Baseball",
            BallType::TennisBall => "Tennis Ball",
            BallType::SuperBall => "Super Ball",
            BallType::Pinball => "Pinball",
            BallType::PoolBall => "Pool Ball",
            BallType::ProgrammableBall => "Programmable Ball",
        }
    }

    fn description(&self) -> &'static str {
        match self {
            BallType::BowlingBall => "Heavy ball with 3 finger holes",
            BallType::Cannonball => "Dense iron ball",
            BallType::Basketball => "Orange ball with seam lines",
            BallType::SoccerBall => "White ball with pentagon pattern",
            BallType::Baseball => "White ball with red stitching",
            BallType::TennisBall => "Yellow-green fuzzy ball",
            BallType::SuperBall => "Highly elastic bouncy ball (gains energy)",
            BallType::Pinball => "Small metallic silver ball",
            BallType::PoolBall => "Colored ball with number, zero-gravity float",
            BallType::ProgrammableBall => "Ball with adjustable physics properties",
        }
    }

    fn category(&self) -> &'static str {
        "Balls"
    }

    fn default_size(&self) -> (u32, u32) {
        let d = self.radius() * 2;
        (d, d)
    }

    fn icon_char(&self) -> char {
        match self {
            BallType::BowlingBall => '\u{2B24}', // ⬤
            _ => '\u{25CF}', // ●
        }
    }

    fn icon_color(&self) -> [u8; 3] {
        match self {
            BallType::BowlingBall => DARK_GRAY,
            BallType::Cannonball => DARK_GRAY,
            BallType::Basketball => ORANGE,
            BallType::SoccerBall => WHITE,
            BallType::Baseball => WHITE,
            BallType::TennisBall => YELLOW_GREEN,
            BallType::SuperBall => MAGENTA,
            BallType::Pinball => SILVER,
            BallType::PoolBall => RED,
            BallType::ProgrammableBall => TEAL,
        }
    }

    fn text_glyph(&self, area: CellRect, _flipped: bool) -> Option<Glyph> {
        place_centered(area, self.icon_char(), self.icon_color())
    }

    fn states(&self) -> Vec<StateDef> {
        vec![
            StateDef { name: "Idle", description: "At rest or placed" },
            StateDef { name: "Moving", description: "In motion during simulation" },
            StateDef { name: "AtRest", description: "Velocity < 0.5 px/s for 30 ticks" },
        ]
    }

    fn has_animation(&self) -> bool {
        false
    }

    fn is_resizable(&self) -> bool {
        false
    }

    fn is_flippable(&self) -> bool {
        false
    }

    fn destructible_by_dynamite(&self) -> bool {
        false
    }

    fn can_be_ramp(&self) -> bool {
        false
    }

    fn has_rope_point(&self) -> bool {
        false
    }

    fn requires_power(&self) -> bool {
        false
    }

    fn provides_power(&self) -> bool {
        false
    }
}

} // verus!
