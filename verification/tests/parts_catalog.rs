use tim2::parts::balls::BallType;
use tim2::parts::gadgets::GadgetType;
use tim2::parts::inclines::InclineType;
use tim2::parts::mechanical::MechanicalType;
use tim2::parts::walls::WallType;
use tim2::parts::{catalog, PartDef, PartId};
use tim2::render::cells::{CellRect, Glyph};

#[test]
fn catalog_has_eleven_categories_in_order() {
    let cats = catalog();
    let names: Vec<&str> = cats.iter().map(|c| c.name).collect();
    assert_eq!(
        names,
        vec![
            "Balls",
            "Walls",
            "Inclines",
            "Mechanical",
            "Electrical",
            "Pyrotechnic",
            "Animals",
            "Gadgets",
            "Pipes",
            "Lasers",
            "Ropes"
        ]
    );
    let counts: Vec<usize> = cats.iter().map(|c| c.parts.len()).collect();
    assert_eq!(counts, vec![10, 15, 3, 21, 10, 12, 9, 20, 4, 7, 2]);
}

#[test]
fn catalog_parts_belong_to_their_category() {
    for cat in catalog() {
        for p in &cat.parts {
            assert_eq!(p.category(), cat.name);
        }
    }
}

#[test]
fn catalog_lists_no_part_twice() {
    let cats = catalog();
    let mut all: Vec<PartId> = Vec::new();
    for c in &cats {
        for p in &c.parts {
            assert!(!all.contains(p));
            all.push(*p);
        }
    }
    assert_eq!(all.len(), 113);
}

#[test]
fn catalog_lists_boxes_and_bellows() {
    let cats = catalog();
    let listed = |p: PartId| cats.iter().any(|c| c.parts.contains(&p));
    assert!(listed(PartId::Mechanical(MechanicalType::Bellows)));
    assert!(listed(PartId::Gadget(GadgetType::GlassBox)));
    assert!(listed(PartId::Gadget(GadgetType::Teapot)));
    assert!(listed(PartId::Gadget(GadgetType::Bucket)));
    assert!(listed(PartId::Ball(BallType::ProgrammableBall)));
    let gadgets = cats.iter().find(|c| c.name == "Gadgets").unwrap();
    assert_eq!(gadgets.parts.len(), 20);
    assert_eq!(gadgets.parts[12], PartId::Gadget(GadgetType::GlassBox));
}

#[test]
fn incline_sizes_follow_their_slopes() {
    let slopes = [70.0f64, 45.0, 30.0, 18.0, 10.0];
    let widths = [30u32, 60, 100, 150, 200];
    for k in 0..5 {
        let (w, h) = InclineType::size_dims(k as i32);
        assert_eq!(w, widths[k]);
        let deg = (h as f64 / w as f64).atan().to_degrees();
        assert!((deg - slopes[k]).abs() < 3.0, "level {} slope {}", k, deg);
    }
    assert_eq!(InclineType::size_dims(7), (200, 35));
    assert_eq!(PartId::Incline(InclineType::BrickIncline).default_size(), InclineType::size_dims(2));
}

#[test]
fn every_catalog_part_has_a_state() {
    for cat in catalog() {
        for p in &cat.parts {
            assert!(!p.states().is_empty(), "{:?} has no state", p);
        }
    }
    assert!(!PartId::Gadget(GadgetType::Teapot).states().is_empty());
}

#[test]
fn ball_metadata() {
    let b = PartId::Ball(BallType::BowlingBall);
    assert_eq!(b.name(), "Bowling Ball");
    assert_eq!(b.description(), "Heavy ball with 3 finger holes");
    assert_eq!(b.category(), "Balls");
    assert_eq!(b.default_size(), (32, 32));
    assert_eq!(b.icon_char(), '\u{2B24}');
    assert_eq!(b.icon_color(), [80, 80, 80]);
    let t = PartId::Ball(BallType::TennisBall);
    assert_eq!(t.default_size(), (10, 10));
    assert_eq!(t.icon_char(), '\u{25CF}');
    assert_eq!(t.icon_color(), [180, 220, 50]);
}

#[test]
fn ball_states_are_idle_moving_at_rest() {
    let states = PartId::Ball(BallType::Cannonball).states();
    let names: Vec<&str> = states.iter().map(|s| s.name).collect();
    assert_eq!(names, vec!["Idle", "Moving", "AtRest"]);
    assert_eq!(states[2].description, "Velocity < 0.5 px/s for 30 ticks");
}

#[test]
fn walls_have_destroyed_state_only_when_destructible() {
    for w in [
        WallType::BrickWall,
        WallType::WoodenWall,
        WallType::SandWall,
        WallType::MarbleArchway,
        WallType::GrassFloor,
    ] {
        let p = PartId::Wall(w);
        let names: Vec<&str> = p.states().iter().map(|s| s.name).collect();
        if p.destructible_by_dynamite() {
            assert_eq!(names, vec!["Intact", "Destroyed"]);
        } else {
            assert_eq!(names, vec!["Intact"]);
        }
    }
}

#[test]
fn incline_text_glyph_depends_on_flip() {
    let p = PartId::Incline(InclineType::BrickIncline);
    let area = CellRect { x: 2, y: 3, width: 4, height: 2 };
    let g = p.text_glyph(area, false).unwrap();
    assert_eq!((g.x, g.y, g.ch), (4, 4, '\u{25E2}'));
    assert_eq!(g.color, p.icon_color());
    let f = p.text_glyph(area, true).unwrap();
    assert_eq!(f.ch, '\u{25E3}');
    assert!(p.is_flippable());
}

#[test]
fn text_glyph_in_empty_area_is_none() {
    let p = PartId::Ball(BallType::Baseball);
    assert_eq!(p.text_glyph(CellRect { x: 0, y: 0, width: 0, height: 5 }, false), None);
    let one = p.text_glyph(CellRect { x: 7, y: 9, width: 1, height: 1 }, false);
    assert_eq!(one, Some(Glyph { x: 7, y: 9, ch: '\u{25CF}', color: [240, 240, 240] }));
}

#[test]
fn ball_colors_and_radius() {
    assert_eq!(BallType::Basketball.center_color(), [240, 150, 40]);
    assert_eq!(BallType::Basketball.edge_color(), [180, 90, 20]);
    assert_eq!(BallType::Cannonball.radius(), 12);
}
