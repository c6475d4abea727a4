use tim2::parts::balls::BallType;
use tim2::parts::inclines::InclineType;
use tim2::parts::walls::WallType;
use tim2::parts::PartId;
use tim2::puzzle::{BinPart, InstanceId, PuzzleStatus};
use tim2::session::{level_after, level_before, level_status, BinEntry, BuildFocus, Mode, Session};

fn bin() -> Vec<BinPart> {
    vec![
        BinPart { part_id: PartId::Incline(InclineType::BrickIncline), quantity: 2 },
        BinPart { part_id: PartId::Wall(WallType::BrickWall), quantity: 1 },
        BinPart { part_id: PartId::Ball(BallType::Basketball), quantity: 0 },
    ]
}

#[test]
fn new_session_starts_building_with_full_bin() {
    let s = Session::new(&bin());
    assert_eq!(s.mode(), Mode::Build);
    assert_eq!(s.focus(), BuildFocus::Cursor);
    assert_eq!(s.selected_bin(), 0);
    assert_eq!(s.bin().len(), 3);
    assert_eq!(
        s.bin()[1],
        BinEntry { part_id: PartId::Wall(WallType::BrickWall), total: 1, placed: 0 }
    );
    assert!(s.player_instances().is_empty());
    assert_eq!(s.status_msg(), "");
    assert_eq!(s.status_frames(), 0);
}

#[test]
fn available_saturates() {
    let e = BinEntry { part_id: PartId::Ball(BallType::Pinball), total: 2, placed: 5 };
    assert_eq!(e.available(), 0);
    let e = BinEntry { part_id: PartId::Ball(BallType::Pinball), total: 5, placed: 2 };
    assert_eq!(e.available(), 3);
}

#[test]
fn placing_uses_up_the_bin_entry() {
    let mut s = Session::new(&bin());
    assert_eq!(s.part_to_place(), Some(PartId::Incline(InclineType::BrickIncline)));
    s.record_placement(InstanceId(7));
    assert_eq!(s.focus(), BuildFocus::MovingPart(InstanceId(7)));
    assert_eq!(s.bin()[0].placed, 1);
    assert_eq!(s.status_msg(), "Placed Brick Incline. Arrows to move, Esc to deselect.");
    assert_eq!(s.status_frames(), 90);
    s.record_placement(InstanceId(8));
    assert_eq!(s.bin()[0].available(), 0);
    s.fade_status();
    assert_eq!(s.part_to_place(), None);
    assert_eq!(s.status_msg(), "No more of that part available!");
    assert_eq!(s.status_frames(), 90);
    assert_eq!(s.player_instances(), &vec![InstanceId(7), InstanceId(8)]);
}

#[test]
fn empty_entry_cannot_be_placed() {
    let mut s = Session::new(&bin());
    s.select_prev_bin();
    assert_eq!(s.selected_bin(), 2);
    assert_eq!(s.part_to_place(), None);
    assert_eq!(s.status_msg(), "No more of that part available!");
}

#[test]
fn bin_selection_wraps_both_ways() {
    let mut s = Session::new(&bin());
    s.select_next_bin();
    s.select_next_bin();
    assert_eq!(s.selected_bin(), 2);
    s.select_next_bin();
    assert_eq!(s.selected_bin(), 0);
    s.select_prev_bin();
    assert_eq!(s.selected_bin(), 2);
    s.select_next_bin();
    assert_eq!(s.selected_bin(), 0);
}

#[test]
fn empty_bin_selection_stays() {
    let mut s = Session::new(&Vec::new());
    s.select_next_bin();
    s.select_prev_bin();
    assert_eq!(s.selected_bin(), 0);
    assert_eq!(s.part_to_place(), None);
    assert_eq!(s.status_msg(), "");
}

#[test]
fn start_then_stop_returns_to_build() {
    let mut s = Session::new(&bin());
    s.part_to_place();
    s.record_placement(InstanceId(3));
    assert!(s.start_sim());
    assert_eq!(s.mode(), Mode::Running);
    assert_eq!(s.focus(), BuildFocus::Cursor);
    assert_eq!(s.status_msg(), "Simulation running...");
    assert!(!s.start_sim());
    assert!(s.stop_sim());
    assert_eq!(s.mode(), Mode::Build);
    assert_eq!(s.status_msg(), "Simulation stopped. Parts restored.");
    assert!(!s.stop_sim());
    assert_eq!(s.player_instances(), &vec![InstanceId(3)]);
    assert_eq!(s.bin()[0].placed, 1);
}

#[test]
fn winning_tick_is_final() {
    let mut s = Session::new(&bin());
    s.finish_tick(PuzzleStatus::Won);
    assert_eq!(s.mode(), Mode::Build);
    s.start_sim();
    s.finish_tick(PuzzleStatus::Playing);
    assert_eq!(s.mode(), Mode::Running);
    s.finish_tick(PuzzleStatus::Won);
    assert_eq!(s.mode(), Mode::Won);
    assert_eq!(s.status_msg(), "");
    assert!(!s.start_sim());
    assert!(!s.stop_sim());
    s.finish_tick(PuzzleStatus::Playing);
    assert_eq!(s.mode(), Mode::Won);
}

#[test]
fn reset_returns_every_part() {
    let mut s = Session::new(&bin());
    s.part_to_place();
    s.record_placement(InstanceId(1));
    s.select_next_bin();
    s.part_to_place();
    s.record_placement(InstanceId(2));
    s.start_sim();
    let removed = s.reset_puzzle();
    assert_eq!(removed, vec![InstanceId(1), InstanceId(2)]);
    assert_eq!(s.mode(), Mode::Build);
    assert_eq!(s.focus(), BuildFocus::Cursor);
    assert!(s.player_instances().is_empty());
    assert!(s.bin().iter().all(|e| e.placed == 0));
    assert_eq!(s.status_msg(), "Puzzle reset.");
}

#[test]
fn delete_returns_part_to_bin() {
    let mut s = Session::new(&bin());
    s.part_to_place();
    s.record_placement(InstanceId(4));
    assert_eq!(s.deletable(), Some(InstanceId(4)));
    let r = s.delete_selected(Some(PartId::Incline(InclineType::BrickIncline)));
    assert_eq!(r, Some(InstanceId(4)));
    assert_eq!(s.bin()[0].placed, 0);
    assert!(s.player_instances().is_empty());
    assert_eq!(s.focus(), BuildFocus::Cursor);
    assert_eq!(s.status_msg(), "Part returned to bin.");
    assert_eq!(s.delete_selected(None), None);
}

#[test]
fn delete_without_world_part_keeps_bin_count() {
    let mut s = Session::new(&bin());
    s.part_to_place();
    s.record_placement(InstanceId(4));
    assert_eq!(s.delete_selected(None), Some(InstanceId(4)));
    assert_eq!(s.bin()[0].placed, 1);
    assert!(s.player_instances().is_empty());
}

#[test]
fn tab_cycles_player_parts() {
    let mut s = Session::new(&bin());
    assert_eq!(s.select_next_player_part(), None);
    s.part_to_place();
    s.record_placement(InstanceId(10));
    s.part_to_place();
    s.record_placement(InstanceId(11));
    s.deselect();
    assert_eq!(s.focus(), BuildFocus::Cursor);
    assert_eq!(s.select_next_player_part(), Some(InstanceId(10)));
    assert_eq!(s.select_next_player_part(), Some(InstanceId(11)));
    assert_eq!(s.select_next_player_part(), Some(InstanceId(10)));
    assert_eq!(s.focus(), BuildFocus::MovingPart(InstanceId(10)));
}

#[test]
fn confirm_part_gives_cursor_focus() {
    let mut s = Session::new(&bin());
    s.part_to_place();
    s.record_placement(InstanceId(5));
    s.confirm_part();
    assert_eq!(s.focus(), BuildFocus::Cursor);
    assert_eq!(s.status_msg(), "Part placed.");
}

#[test]
fn status_fades_one_frame_at_a_time() {
    let mut s = Session::new(&bin());
    s.set_status("hello");
    assert_eq!(s.status_frames(), 90);
    for _ in 0..95 {
        s.fade_status();
    }
    assert_eq!(s.status_frames(), 0);
    assert_eq!(s.status_msg(), "hello");
}

#[test]
fn level_navigation() {
    assert_eq!(level_after(0, 7), Some(1));
    assert_eq!(level_after(6, 7), None);
    assert_eq!(level_before(0), None);
    assert_eq!(level_before(3), Some(2));
    assert_eq!(level_status(2, 7), "Level 3/7");
    assert_eq!(level_status(9, 12), "Level 10/12");
}
