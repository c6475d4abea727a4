use tim2::level::{
    default_edge, lookup_label, resolve_bin_parts, resolve_edge, resolve_part_id,
    resolve_part_kinds, BinPartDef, LevelError,
};
use tim2::parts::balls::BallType;
use tim2::parts::inclines::InclineType;
use tim2::parts::walls::WallType;
use tim2::parts::PartId;
use tim2::puzzle::{BinPart, InstanceId, WorldEdge};
use tim2::render::cells::CellColor;
use tim2::screen::{bin_line, goal_badge, help_line, level_label, status_color, BinLineStyle};
use tim2::session::{BinEntry, BuildFocus, Mode};

#[test]
fn resolves_known_part_kinds() {
    assert_eq!(resolve_part_id("BowlingBall"), Some(PartId::Ball(BallType::BowlingBall)));
    assert_eq!(resolve_part_id("Cannonball"), Some(PartId::Ball(BallType::Cannonball)));
    assert_eq!(resolve_part_id("MarbleArchway"), Some(PartId::Wall(WallType::MarbleArchway)));
    assert_eq!(
        resolve_part_id("YellowBrickIncline"),
        Some(PartId::Incline(InclineType::YellowBrickIncline))
    );
}

#[test]
fn unknown_part_kinds_do_not_resolve() {
    assert_eq!(resolve_part_id("Gear"), None);
    assert_eq!(resolve_part_id("bowlingball"), None);
    assert_eq!(resolve_part_id(""), None);
    assert_eq!(resolve_part_id("BrickWall "), None);
}

#[test]
fn edges_resolve_with_any_as_fallback() {
    assert_eq!(resolve_edge("Top"), WorldEdge::Top);
    assert_eq!(resolve_edge("Bottom"), WorldEdge::Bottom);
    assert_eq!(resolve_edge("Left"), WorldEdge::Left);
    assert_eq!(resolve_edge("Right"), WorldEdge::Right);
    assert_eq!(resolve_edge("Sideways"), WorldEdge::Any);
    assert_eq!(default_edge(), "Any");
    assert_eq!(resolve_edge(&default_edge()), WorldEdge::Any);
}

#[test]
fn part_kinds_resolve_in_order() {
    let kinds = vec!["Baseball".to_string(), "LogWall".to_string()];
    assert_eq!(
        resolve_part_kinds(&kinds),
        Ok(vec![PartId::Ball(BallType::Baseball), PartId::Wall(WallType::LogWall)])
    );
    assert_eq!(resolve_part_kinds(&Vec::new()), Ok(Vec::new()));
}

#[test]
fn first_unknown_part_kind_is_reported() {
    let kinds = vec!["Baseball".to_string(), "Blimp".to_string(), "Zeppelin".to_string()];
    assert_eq!(resolve_part_kinds(&kinds), Err(LevelError::UnknownPartKind("Blimp".to_string())));
}

#[test]
fn bin_entries_resolve() {
    let bin = vec![
        BinPartDef { kind: "BrickIncline".to_string(), quantity: 2 },
        BinPartDef { kind: "WoodenWall".to_string(), quantity: 1 },
    ];
    assert_eq!(
        resolve_bin_parts(&bin),
        Ok(vec![
            BinPart { part_id: PartId::Incline(InclineType::BrickIncline), quantity: 2 },
            BinPart { part_id: PartId::Wall(WallType::WoodenWall), quantity: 1 },
        ])
    );
    let bad = vec![BinPartDef { kind: "Trampoline".to_string(), quantity: 1 }];
    assert_eq!(
        resolve_bin_parts(&bad),
        Err(LevelError::UnknownBinPartKind("Trampoline".to_string()))
    );
}

#[test]
fn labels_resolve_to_last_holder() {
    let labels = vec![
        ("ball".to_string(), InstanceId(1)),
        ("goal".to_string(), InstanceId(2)),
        ("ball".to_string(), InstanceId(3)),
    ];
    assert_eq!(lookup_label(&labels, "goal"), Ok(InstanceId(2)));
    assert_eq!(lookup_label(&labels, "ball"), Ok(InstanceId(3)));
    assert_eq!(
        lookup_label(&labels, "basket"),
        Err(LevelError::UnknownLabel("basket".to_string()))
    );
}

#[test]
fn goal_badges() {
    assert_eq!(goal_badge(Mode::Build), (" BUILD ", CellColor::Cyan));
    assert_eq!(goal_badge(Mode::Running), (" RUNNING ", CellColor::Yellow));
    assert_eq!(goal_badge(Mode::Won), (" PUZZLE COMPLETE! ", CellColor::Green));
    assert_eq!(level_label(0, 7), " 1/7 ");
    assert_eq!(level_label(10, 12), " 11/12 ");
}

#[test]
fn help_lines() {
    assert_eq!(
        help_line(Mode::Build, BuildFocus::Cursor),
        "Arrows:Move | j/k:Part | Enter:Place | Tab:Cycle | Space:Run | n/p:Level | q:Quit"
    );
    assert_eq!(
        help_line(Mode::Build, BuildFocus::MovingPart(InstanceId(1))),
        "Arrows:Move part | f:Flip | d:Delete | Esc:Deselect | Tab:Next | Space:Run"
    );
    assert_eq!(help_line(Mode::Running, BuildFocus::Cursor), "Space:Stop | q:Quit");
    assert_eq!(
        help_line(Mode::Won, BuildFocus::Cursor),
        "n:Next level | p:Prev level | r:Reset | q:Quit"
    );
}

#[test]
fn bin_lines() {
    let e = BinEntry { part_id: PartId::Wall(WallType::BrickWall), total: 3, placed: 1 };
    let (text, style) = bin_line(&e, true);
    let icon = tim2::parts::PartDef::icon_char(&e.part_id);
    assert_eq!(text, format!(">{} Brick Wall x2", icon));
    let ic = tim2::parts::PartDef::icon_color(&e.part_id);
    assert_eq!(style, BinLineStyle::Selected(CellColor::Rgb(ic[0], ic[1], ic[2])));
    let (text, style) = bin_line(&e, false);
    assert!(text.starts_with(' '));
    assert!(text.ends_with(" Brick Wall x2"));
    assert_eq!(style, BinLineStyle::Normal(CellColor::Rgb(ic[0], ic[1], ic[2])));
    let empty = BinEntry { placed: 3, ..e };
    let (text, style) = bin_line(&empty, false);
    assert!(text.ends_with("x0"));
    assert_eq!(style, BinLineStyle::Empty);
    let ball = BinEntry { part_id: PartId::Ball(BallType::Pinball), total: 12, placed: 0 };
    assert_eq!(bin_line(&ball, false).0, " \u{25CF} Pinball x12");
}

#[test]
fn status_colors() {
    assert_eq!(status_color(0), None);
    assert_eq!(status_color(1), Some(CellColor::DarkGray));
    assert_eq!(status_color(30), Some(CellColor::DarkGray));
    assert_eq!(status_color(31), Some(CellColor::Yellow));
    assert_eq!(status_color(90), Some(CellColor::Yellow));
}
