use tim2::explorer::Explorer;
use tim2::mvp::{
    draw_ball_text, draw_cursor_text, draw_ramp_text, hud_line1, hud_line2, in_area, mode_color,
    mode_word, popup_rect, region_cells, Mode, BALL_COLOR, WOOD,
};
use tim2::parts::balls::BallType;
use tim2::parts::inclines::InclineType;
use tim2::parts::walls::WallType;
use tim2::parts::{PartDef, PartId};
use tim2::puzzle::InstanceId;
use tim2::render::cells::{CellColor, CellRect, Glyph, TermCell};
use tim2::world::World;

// ── Explorer ──

#[test]
fn explorer_starts_at_bowling_ball() {
    let e = Explorer::new();
    assert_eq!(e.current_part(), PartId::Ball(BallType::BowlingBall));
    assert_eq!(e.current_category_name(), "Balls");
    assert_eq!(e.selected_prop(), 0);
    assert_eq!(e.current_state(), 0);
    assert!(!e.flipped());
}

#[test]
fn explorer_category_navigation_wraps() {
    let mut e = Explorer::new();
    e.prev_category();
    assert_eq!(e.current_category_name(), "Ropes");
    e.next_category();
    assert_eq!(e.current_category_name(), "Balls");
    e.next_category();
    assert_eq!(e.current_category_name(), "Walls");
    assert_eq!(e.current_part(), PartId::Wall(WallType::BrickWall));
}

#[test]
fn explorer_part_navigation_wraps_and_resets() {
    let mut e = Explorer::new();
    e.next_category();
    e.next_category();
    assert_eq!(e.current_category_name(), "Inclines");
    e.toggle_flip();
    assert!(e.flipped());
    e.next_part();
    assert!(!e.flipped());
    assert_eq!(e.current_part(), PartId::Incline(InclineType::YellowBrickIncline));
    e.next_part();
    e.next_part();
    assert_eq!(e.current_part(), PartId::Incline(InclineType::BrickIncline));
    e.prev_part();
    assert_eq!(e.current_part(), PartId::Incline(InclineType::GraniteIncline));
    e.next_part();
    assert_eq!(e.current_part(), PartId::Incline(InclineType::BrickIncline));
}

#[test]
fn explorer_flip_only_for_flippable_parts() {
    let mut e = Explorer::new();
    assert!(!e.current_part().is_flippable());
    e.toggle_flip();
    assert!(!e.flipped());
}

#[test]
fn explorer_state_cycles() {
    let mut e = Explorer::new();
    e.cycle_state();
    assert_eq!(e.current_state(), 1);
    e.cycle_state();
    e.cycle_state();
    assert_eq!(e.current_state(), 0);
    e.cycle_state();
    e.next_part();
    assert_eq!(e.current_state(), 0);
}

#[test]
fn explorer_property_selection_wraps() {
    let mut e = Explorer::new();
    e.prev_prop(3);
    assert_eq!(e.selected_prop(), 2);
    e.next_prop(3);
    assert_eq!(e.selected_prop(), 0);
    e.next_prop(0);
    assert_eq!(e.selected_prop(), 0);
    e.next_prop(3);
    e.next_prop(3);
    assert_eq!(e.selected_prop(), 2);
}

// ── World ──

#[test]
fn world_hands_out_fresh_ids() {
    let mut w: World<(i32, i32)> = World::new();
    let a = w.spawn(PartId::Ball(BallType::Pinball), (1, 2));
    let b = w.spawn_locked(PartId::Wall(WallType::BrickWall), (3, 4));
    assert_eq!(a, InstanceId(1));
    assert_eq!(b, InstanceId(2));
    assert_eq!(w.instances().len(), 2);
    assert!(!w.get(a).unwrap().locked);
    assert!(w.get(b).unwrap().locked);
    assert_eq!(w.get(b).unwrap().body, (3, 4));
    assert_eq!(w.position(b), Some(1));
    assert!(w.can_spawn());
}

#[test]
fn world_remove_then_get_is_none() {
    let mut w: World<u8> = World::new();
    let a = w.spawn(PartId::Ball(BallType::Pinball), 1);
    let b = w.spawn(PartId::Ball(BallType::PoolBall), 2);
    let removed = w.remove(a).unwrap();
    assert_eq!(removed.id, a);
    assert_eq!(removed.body, 1);
    assert!(w.get(a).is_none());
    assert_eq!(w.get(b).unwrap().body, 2);
    assert!(w.remove(a).is_none());
    // Ids are never reused.
    let c = w.spawn(PartId::Ball(BallType::Baseball), 3);
    assert_eq!(c, InstanceId(3));
}

#[test]
fn world_set_body() {
    let mut w: World<u8> = World::new();
    let a = w.spawn(PartId::Ball(BallType::Pinball), 1);
    assert!(w.set_body(a, 9));
    assert_eq!(w.get(a).unwrap().body, 9);
    assert_eq!(w.get(a).unwrap().part_id, PartId::Ball(BallType::Pinball));
    assert!(!w.set_body(InstanceId(42), 5));
}

#[test]
fn world_remove_after_spawn_restores() {
    let mut w: World<u8> = World::new();
    w.spawn(PartId::Ball(BallType::Pinball), 1);
    let before: Vec<(InstanceId, u8)> = w.instances().iter().map(|i| (i.id, i.body)).collect();
    let id = w.spawn(PartId::Ball(BallType::PoolBall), 2);
    w.remove(id);
    let after: Vec<(InstanceId, u8)> = w.instances().iter().map(|i| (i.id, i.body)).collect();
    assert_eq!(before, after);
}

// ── Prototype HUD and text drawing ──

#[test]
fn hud_lines() {
    assert_eq!(
        hud_line1(&Mode::Normal, "320", "180", 2, 42),
        "MODE: NORMAL | (320, 180) | parts: 2 | frame: 42"
    );
    assert_eq!(
        hud_line1(&Mode::Place { bin_idx: 1 }, "0", "-4", 0, 0),
        "MODE: PLACE | (0, -4) | parts: 0 | frame: 0"
    );
    assert_eq!(
        hud_line2(&Mode::Normal),
        "[p]lace [e]dit [Space]run [x]del [f]lip [u]ndo [?]help [q]uit"
    );
    assert_eq!(hud_line2(&Mode::Edit { part_idx: 0 }), "[hjkl]move [f]lip [x]del [Enter/Esc]done");
    assert_eq!(hud_line2(&Mode::Run), "[Esc/Space] stop");
    assert_eq!(
        hud_line2(&Mode::Place { bin_idx: 0 }),
        "[hjkl]move [JK]scroll [1-5]select [Enter]place [Esc]cancel"
    );
    assert_eq!(mode_word(&Mode::Run), "RUN");
    assert_eq!(mode_color(&Mode::Edit { part_idx: 3 }), CellColor::Green);
    assert_eq!(mode_color(&Mode::Run), CellColor::Red);
}

#[test]
fn area_membership() {
    let area = CellRect { x: 2, y: 2, width: 3, height: 2 };
    assert!(in_area(2, 2, area));
    assert!(in_area(4, 3, area));
    assert!(!in_area(5, 3, area));
    assert!(!in_area(3, 4, area));
    assert!(!in_area(1, 2, area));
}

#[test]
fn region_cells_are_clipped() {
    let area = CellRect { x: 1, y: 1, width: 2, height: 2 };
    assert_eq!(region_cells(0, 0, 3, 2, area), vec![(1, 1), (2, 1)]);
    assert_eq!(region_cells(5, 5, 2, 2, area), vec![]);
}

#[test]
fn ramp_text_glyphs() {
    let area = CellRect { x: 0, y: 0, width: 10, height: 10 };
    let g = |x: u16, y: u16, ch: char| Glyph { x, y, ch, color: WOOD };
    assert_eq!(
        draw_ramp_text(0, 0, 3, 3, false, area),
        vec![
            g(2, 0, '\u{2571}'),
            g(1, 1, '\u{2571}'),
            g(2, 1, '\u{2591}'),
            g(0, 2, '\u{2500}'),
            g(1, 2, '\u{2500}'),
            g(2, 2, '\u{2500}'),
        ]
    );
    assert_eq!(
        draw_ramp_text(0, 0, 3, 3, true, area),
        vec![
            g(0, 0, '\u{2572}'),
            g(0, 1, '\u{2591}'),
            g(1, 1, '\u{2572}'),
            g(0, 2, '\u{2500}'),
            g(1, 2, '\u{2500}'),
            g(2, 2, '\u{2500}'),
        ]
    );
    assert!(draw_ramp_text(0, 0, 0, 3, false, area).is_empty());
    let clipped = CellRect { x: 0, y: 2, width: 2, height: 1 };
    assert_eq!(draw_ramp_text(0, 0, 3, 3, false, clipped), vec![g(0, 2, '\u{2500}'), g(1, 2, '\u{2500}')]);
}

#[test]
fn ball_and_cursor_glyphs() {
    let area = CellRect { x: 0, y: 0, width: 4, height: 4 };
    assert_eq!(
        draw_ball_text(1, 2, area),
        Some(Glyph { x: 1, y: 2, ch: '\u{25CF}', color: BALL_COLOR })
    );
    assert_eq!(draw_ball_text(4, 2, area), None);
    assert_eq!(
        draw_cursor_text(&Mode::Place { bin_idx: 0 }, 3, 3, area),
        Some(TermCell { x: 3, y: 3, ch: '\u{253C}', fg: CellColor::Yellow, bg: None })
    );
    assert_eq!(
        draw_cursor_text(&Mode::Normal, 0, 0, area).map(|c| c.fg),
        Some(CellColor::Cyan)
    );
    assert_eq!(draw_cursor_text(&Mode::Run, 1, 1, area), None);
    assert_eq!(draw_cursor_text(&Mode::Normal, 9, 1, area), None);
}

#[test]
fn popups_are_centered() {
    let area = CellRect { x: 1, y: 1, width: 45, height: 20 };
    assert_eq!(popup_rect(area, 25, 6), CellRect { x: 11, y: 8, width: 25, height: 6 });
    let small = CellRect { x: 3, y: 4, width: 10, height: 5 };
    assert_eq!(popup_rect(small, 40, 16), CellRect { x: 3, y: 4, width: 40, height: 16 });
}

#[test]
fn world_ids_increase() {
    let mut w: World<u8> = World::new();
    let a = w.spawn(PartId::Ball(BallType::Pinball), 1);
    let b = w.spawn(PartId::Ball(BallType::Pinball), 2);
    w.remove(a);
    let c = w.spawn(PartId::Ball(BallType::Pinball), 3);
    assert!(a.0 < b.0 && b.0 < c.0);
    assert!(w.instances().iter().all(|i| i.id.0 < 4));
}
