//! What each key does in the game, by mode and focus.
use vstd::prelude::*;

use crate::session::{BuildFocus, Mode};

verus! {

/// A key press, as the game distinguishes keys.
#[derive(Debug, Clone, Copy, PartialEq, Eq, Structural)]
pub enum Key {
    Char(char),
    Left,
    Right,
    Up,
    Down,
    Enter,
    Esc,
    Tab,
    Delete,
    /// Any other key.
    Other,
}

/// A direction the cursor or the selected part moves in.
#[derive(Debug, Clone, Copy, PartialEq, Eq, Structural)]
pub enum Direction {
    Left,
    Right,
    Up,
    Down,
}

/// What a key asks the game to do.
#[derive(Debug, Clone, Copy, PartialEq, Eq, Structural)]
pub enum GameAction {
    Nothing,
    Quit,
    NextLevel,
    PrevLevel,
    StartSim,
    StopSim,
    Reset,
    NextBin,
    PrevBin,
    /// Move the cursor, or the selected part, one step.
    Move(Direction),
    /// Place a part from the bin at the cursor.
    Place,
    /// Leave the selected part where it is.
    ConfirmPart,
    Deselect,
    SelectNextPart,
    Flip,
    Delete,
    ToggleHalfblock,
    ToggleDualColor,
    ToggleSupersample,
}

/// The action of `key` (with Control held when `ctrl`) in `mode` with `focus`.
pub open spec fn game_action(mode: Mode, focus: BuildFocus, key: Key, ctrl: bool) -> GameAction {
    let building = mode == Mode::Build;
    match key {
        Key::Char('q') => GameAction::Quit,
        Key::Char('c') if ctrl => GameAction::Quit,
        Key::Char('n') if mode != Mode::Running => GameAction::NextLevel,
        Key::Char('p') if mode != Mode::Running => GameAction::PrevLevel,
        Key::Char(' ') => match mode {
            Mode::Build => GameAction::StartSim,
            Mode::Running => GameAction::StopSim,
            Mode::Won => GameAction::Nothing,
        },
        Key::Char('r') => GameAction::Reset,
        Key::Char('j') if building => GameAction::NextBin,
        Key::Char('k') if building => GameAction::PrevBin,
        Key::Left if building => GameAction::Move(Direction::Left),
        Key::Right if building => GameAction::Move(Direction::Right),
        Key::Up if building => GameAction::Move(Direction::Up),
        Key::Down if building => GameAction::Move(Direction::Down),
        Key::Enter if building => match focus {
            BuildFocus::Cursor => GameAction::Place,
            BuildFocus::MovingPart(_) => GameAction::ConfirmPart,
        },
        Key::Esc if building => GameAction::Deselect,
        Key::Tab if building => GameAction::SelectNextPart,
        Key::Char('f') if building => GameAction::Flip,
        Key::Char('d') if building => GameAction::Delete,
        Key::Delete if building => GameAction::Delete,
        Key::Char('1') => GameAction::ToggleHalfblock,
        Key::Char('2') => GameAction::ToggleDualColor,
        Key::Char('3') => GameAction::ToggleSupersample,
        _ => GameAction::Nothing,
    }
}

/// The action of a key press: quitting, level navigation and the renderer
/// switches work in every mode (levels not while running), the rest only
/// while building.
pub fn action_for_key(mode: Mode, focus: BuildFocus, key: Key, ctrl: bool) -> (r: GameAction)
    ensures
        r == game_action(mode, focus, key, ctrl),
{
    let building = match mode {
        Mode::Build => true,
        _ => false,
    };
    let running = match mode {
        Mode::Running => true,
        _ => false,
    };
    match key {
        Key::Char('q') => GameAction::Quit,
        Key::Char('c') if ctrl => GameAction::Quit,
        Key::Char('n') if !running => GameAction::NextLevel,
        Key::Char('p') if !running => GameAction::PrevLevel,
        Key::Char(' ') => match mode {
            Mode::Build => GameAction::StartSim,
            Mode::Running => GameAction::StopSim,
            Mode::Won => GameAction::Nothing,
        },
        Key::Char('r') => GameAction::Reset,
        Key::Char('j') if building => GameAction::NextBin,
        Key::Char('k') if building => GameAction::PrevBin,
        Key::Left if building => GameAction::Move(Direction::Left),
        Key::Right if building => GameAction::Move(Direction::Right),
        Key::Up if building => GameAction::Move(Direction::Up),
        Key::Down if building => GameAction::Move(Direction::Down),
        Key::Enter if building => match focus {
            BuildFocus::Cursor => GameAction::Place,
            BuildFocus::MovingPart(_) => GameAction::ConfirmPart,
        },
        Key::Esc if building => GameAction::Deselect,
        Key::Tab if building => GameAction::SelectNextPart,
        Key::Char('f') if building => GameAction::Flip,
        Key::Char('d') if building => GameAction::Delete,
        Key::Delete if building => GameAction::Delete,
        Key::Char('1') => GameAction::ToggleHalfblock,
        Key::Char('2') => GameAction::ToggleDualColor,
        Key::Char('3') => GameAction::ToggleSupersample,
        _ => GameAction::Nothing,
    }
}

/// While building, each arrow key moves one step in its own direction, with
/// or without Control and whatever has the focus; in the other modes arrows
/// do nothing.
pub proof fn lemma_arrows_move_their_way(mode: Mode, focus: BuildFocus, ctrl: bool)
    ensures
        mode == Mode::Build ==> game_action(mode, focus, Key::Left, ctrl) == GameAction::Move(
            Direction::Left,
        ),
        mode == Mode::Build ==> game_action(mode, focus, Key::Right, ctrl) == GameAction::Move(
            Direction::Right,
        ),
        mode == Mode::Build ==> game_action(mode, focus, Key::Up, ctrl) == GameAction::Move(
            Direction::Up,
        ),
        mode == Mode::Build ==> game_action(mode, focus, Key::Down, ctrl) == GameAction::Move(
            Direction::Down,
        ),
        mode != Mode::Build ==> game_action(mode, focus, Key::Left, ctrl) == GameAction::Nothing
            && game_action(mode, focus, Key::Right, ctrl) == GameAction::Nothing && game_action(
            mode,
            focus,
            Key::Up,
            ctrl,
        ) == GameAction::Nothing && game_action(mode, focus, Key::Down, ctrl)
            == GameAction::Nothing,
{
}

/// Keys that work everywhere: `q` quits, Control-`c` quits, and `1`, `2`, `3`
/// switch the renderer's options, in every mode; space starts a simulation
/// while building and stops it while running.
pub proof fn lemma_keys_in_every_mode(mode: Mode, focus: BuildFocus, ctrl: bool)
    ensures
        game_action(mode, focus, Key::Char('q'), ctrl) == GameAction::Quit,
        game_action(mode, focus, Key::Char('c'), true) == GameAction::Quit,
        game_action(mode, focus, Key::Char('1'), ctrl) == GameAction::ToggleHalfblock,
        game_action(mode, focus, Key::Char('2'), ctrl) == GameAction::ToggleDualColor,
        game_action(mode, focus, Key::Char('3'), ctrl) == GameAction::ToggleSupersample,
        game_action(mode, focus, Key::Char('r'), ctrl) == GameAction::Reset,
        mode == Mode::Build ==> game_action(mode, focus, Key::Char(' '), ctrl) == GameAction::StartSim,
        mode == Mode::Running ==> game_action(mode, focus, Key::Char(' '), ctrl)
            == GameAction::StopSim,
        mode == Mode::Running ==> game_action(mode, focus, Key::Char('n'), ctrl)
            == GameAction::Nothing && game_action(mode, focus, Key::Char('p'), ctrl)
            == GameAction::Nothing,
        mode != Mode::Running ==> game_action(mode, focus, Key::Char('n'), ctrl)
            == GameAction::NextLevel && game_action(mode, focus, Key::Char('p'), ctrl)
            == GameAction::PrevLevel,
{
}

/// While building, Enter places a part when the cursor has the focus and
/// confirms the selected part otherwise; `j`/`k` move through the bin, Tab
/// selects the next placed part, Esc deselects, `f` flips and `d` or Delete
/// deletes.
pub proof fn lemma_build_keys(focus: BuildFocus, ctrl: bool)
    ensures
        game_action(Mode::Build, focus, Key::Enter, ctrl) == (if focus == BuildFocus::Cursor {
            GameAction::Place
        } else {
            GameAction::ConfirmPart
        }),
        game_action(Mode::Build, focus, Key::Char('j'), ctrl) == GameAction::NextBin,
        game_action(Mode::Build, focus, Key::Char('k'), ctrl) == GameAction::PrevBin,
        game_action(Mode::Build, focus, Key::Tab, ctrl) == GameAction::SelectNextPart,
        game_action(Mode::Build, focus, Key::Esc, ctrl) == GameAction::Deselect,
        game_action(Mode::Build, focus, Key::Char('f'), ctrl) == GameAction::Flip,
        game_action(Mode::Build, focus, Key::Char('d'), ctrl) == GameAction::Delete,
        game_action(Mode::Build, focus, Key::Delete, ctrl) == GameAction::Delete,
{
}

/// Outside Build mode the placing and editing keys do nothing.
pub proof fn lemma_build_keys_only_while_building(mode: Mode, focus: BuildFocus, ctrl: bool)
    requires
        mode != Mode::Build,
    ensures
        game_action(mode, focus, Key::Enter, ctrl) == GameAction::Nothing,
        game_action(mode, focus, Key::Char('j'), ctrl) == GameAction::Nothing,
        game_action(mode, focus, Key::Char('k'), ctrl) == GameAction::Nothing,
        game_action(mode, focus, Key::Tab, ctrl) == GameAction::Nothing,
        game_action(mode, focus, Key::Esc, ctrl) == GameAction::Nothing,
        game_action(mode, focus, Key::Char('f'), ctrl) == GameAction::Nothing,
        game_action(mode, focus, Key::Char('d'), ctrl) == GameAction::Nothing,
        game_action(mode, focus, Key::Delete, ctrl) == GameAction::Nothing,
{
}

} // verus!
