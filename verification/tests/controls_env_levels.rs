use tim2::controls::{action_for_key, Direction, GameAction, Key};
use tim2::level::{resolve_level, BinPartDef, LevelError};
use tim2::parts::balls::BallType;
use tim2::parts::walls::WallType;
use tim2::parts::PartId;
use tim2::puzzle::Condition::{AllOf, AnyOf, Holds};
use tim2::puzzle::{evaluate, is_met, BinPart, InstanceId, PuzzleStatus};
use tim2::render::{detect_mode, RenderMode};
use tim2::session::{BuildFocus, Mode};
use tim2::text::{contains_text, text_eq_ignoring_ascii_case};

// ── Keys ──

#[test]
fn keys_while_building() {
    let m = Mode::Build;
    let c = BuildFocus::Cursor;
    let sel = BuildFocus::MovingPart(InstanceId(4));
    assert_eq!(action_for_key(m, c, Key::Char('q'), false), GameAction::Quit);
    assert_eq!(action_for_key(m, c, Key::Char('c'), true), GameAction::Quit);
    assert_eq!(action_for_key(m, c, Key::Char('c'), false), GameAction::Nothing);
    assert_eq!(action_for_key(m, c, Key::Char(' '), false), GameAction::StartSim);
    assert_eq!(action_for_key(m, c, Key::Char('j'), false), GameAction::NextBin);
    assert_eq!(action_for_key(m, c, Key::Char('k'), false), GameAction::PrevBin);
    assert_eq!(action_for_key(m, c, Key::Left, false), GameAction::Move(Direction::Left));
    assert_eq!(action_for_key(m, c, Key::Down, false), GameAction::Move(Direction::Down));
    assert_eq!(action_for_key(m, c, Key::Enter, false), GameAction::Place);
    assert_eq!(action_for_key(m, sel, Key::Enter, false), GameAction::ConfirmPart);
    assert_eq!(action_for_key(m, sel, Key::Esc, false), GameAction::Deselect);
    assert_eq!(action_for_key(m, c, Key::Tab, false), GameAction::SelectNextPart);
    assert_eq!(action_for_key(m, sel, Key::Char('f'), false), GameAction::Flip);
    assert_eq!(action_for_key(m, sel, Key::Char('d'), false), GameAction::Delete);
    assert_eq!(action_for_key(m, sel, Key::Delete, false), GameAction::Delete);
    assert_eq!(action_for_key(m, c, Key::Char('n'), false), GameAction::NextLevel);
    assert_eq!(action_for_key(m, c, Key::Char('p'), false), GameAction::PrevLevel);
    assert_eq!(action_for_key(m, c, Key::Other, false), GameAction::Nothing);
}

#[test]
fn keys_while_running_and_won() {
    let c = BuildFocus::Cursor;
    let r = Mode::Running;
    assert_eq!(action_for_key(r, c, Key::Char(' '), false), GameAction::StopSim);
    assert_eq!(action_for_key(r, c, Key::Char('n'), false), GameAction::Nothing);
    assert_eq!(action_for_key(r, c, Key::Left, false), GameAction::Nothing);
    assert_eq!(action_for_key(r, c, Key::Enter, false), GameAction::Nothing);
    assert_eq!(action_for_key(r, c, Key::Char('r'), false), GameAction::Reset);
    assert_eq!(action_for_key(r, c, Key::Char('1'), false), GameAction::ToggleHalfblock);
    let w = Mode::Won;
    assert_eq!(action_for_key(w, c, Key::Char(' '), false), GameAction::Nothing);
    assert_eq!(action_for_key(w, c, Key::Char('n'), false), GameAction::NextLevel);
    assert_eq!(action_for_key(w, c, Key::Char('2'), false), GameAction::ToggleDualColor);
    assert_eq!(action_for_key(w, c, Key::Char('3'), false), GameAction::ToggleSupersample);
    assert_eq!(action_for_key(w, c, Key::Char('j'), false), GameAction::Nothing);
}

// ── Environment ──

#[test]
fn render_override_wins() {
    assert_eq!(detect_mode(Some("PIXEL"), false, None, None), RenderMode::Pixel);
    assert_eq!(detect_mode(Some("Text"), true, Some("WezTerm"), Some("xterm-kitty")), RenderMode::Text);
    assert_eq!(detect_mode(Some("bogus"), false, None, None), RenderMode::Text);
}

#[test]
fn pixel_terminals_are_recognised() {
    assert_eq!(detect_mode(None, true, None, None), RenderMode::Pixel);
    assert_eq!(detect_mode(None, false, Some("WezTerm"), None), RenderMode::Pixel);
    assert_eq!(detect_mode(None, false, Some("ghostty"), None), RenderMode::Pixel);
    assert_eq!(detect_mode(None, false, Some("iTerm.app"), None), RenderMode::Pixel);
    assert_eq!(detect_mode(None, false, None, Some("xterm-kitty")), RenderMode::Pixel);
    assert_eq!(detect_mode(None, false, None, Some("foot")), RenderMode::Pixel);
    assert_eq!(detect_mode(None, false, None, Some("foot-extra")), RenderMode::Pixel);
    assert_eq!(detect_mode(None, false, Some("Apple_Terminal"), Some("xterm-256color")), RenderMode::Text);
    assert_eq!(detect_mode(None, false, None, None), RenderMode::Text);
}

#[test]
fn text_helpers() {
    assert!(contains_text("xterm-kitty", "kitty"));
    assert!(contains_text("kitty", "kitty"));
    assert!(contains_text("abc", ""));
    assert!(!contains_text("kit", "kitty"));
    assert!(!contains_text("kitt-y", "kitty"));
    assert!(text_eq_ignoring_ascii_case("PiXeL", "pixel"));
    assert!(!text_eq_ignoring_ascii_case("pixels", "pixel"));
}

// ── Levels ──

fn strings(v: &[&str]) -> Vec<String> {
    v.iter().map(|s| s.to_string()).collect()
}

#[test]
fn level_resolves_parts_targets_and_bin() {
    let kinds = strings(&["BrickWall", "PoolBall", "TennisBall"]);
    let labels = vec![None, Some("eight".to_string()), Some("eight".to_string())];
    let conds = strings(&["eight"]);
    let bin = vec![BinPartDef { kind: "SuperBall".to_string(), quantity: 2 }];
    let level = resolve_level(&kinds, &labels, &conds, &bin).ok().unwrap();
    assert_eq!(
        level.parts,
        vec![
            PartId::Wall(WallType::BrickWall),
            PartId::Ball(BallType::PoolBall),
            PartId::Ball(BallType::TennisBall)
        ]
    );
    assert_eq!(level.targets, vec![2]);
    assert_eq!(level.bin, vec![BinPart { part_id: PartId::Ball(BallType::SuperBall), quantity: 2 }]);
}

#[test]
fn level_errors_come_in_build_order() {
    let bad_bin = vec![BinPartDef { kind: "Nope".to_string(), quantity: 1 }];
    let labels = vec![None];
    // An unknown part kind is reported before an unknown label and bin kind.
    let r = resolve_level(&strings(&["Blimp"]), &labels, &strings(&["gone"]), &bad_bin);
    assert!(matches!(r, Err(LevelError::UnknownPartKind(k)) if k == "Blimp"));
    // Then an unknown label, before the bin.
    let r = resolve_level(&strings(&["LogWall"]), &labels, &strings(&["gone"]), &bad_bin);
    assert!(matches!(r, Err(LevelError::UnknownLabel(l)) if l == "gone"));
    // Then the bin.
    let r = resolve_level(&strings(&["LogWall"]), &labels, &Vec::new(), &bad_bin);
    assert!(matches!(r, Err(LevelError::UnknownBinPartKind(k)) if k == "Nope"));
}

// ── Win conditions ──

#[test]
fn empty_conditions_never_win() {
    assert_eq!(evaluate(&Vec::new()), PuzzleStatus::Playing);
}

#[test]
fn conditions_combine() {
    assert_eq!(evaluate(&vec![Holds(true)]), PuzzleStatus::Won);
    assert_eq!(evaluate(&vec![Holds(true), Holds(false)]), PuzzleStatus::Playing);
    assert_eq!(evaluate(&vec![AnyOf(vec![Holds(false), Holds(true)])]), PuzzleStatus::Won);
    assert_eq!(evaluate(&vec![AllOf(vec![Holds(true), AnyOf(vec![])])]), PuzzleStatus::Playing);
    assert!(is_met(&AllOf(vec![])));
    assert!(!is_met(&AnyOf(vec![])));
    assert!(is_met(&AllOf(vec![Holds(true), AnyOf(vec![Holds(false), AllOf(vec![Holds(true)])])])));
}
