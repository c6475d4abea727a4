//! The decisions of a game session: build / run / won modes, the player's
//! parts bin, which placed part is selected, and the status line.
//!
//! Positions, physics and drawing belong to the game program, which asks the
//! session what to do and tells it what happened in the world.
use vstd::arithmetic::div_mod::lemma_fundamental_div_mod_converse;
use vstd::prelude::*;

use crate::parts::{PartDef, PartId};
use crate::puzzle::{BinPart, InstanceId, PuzzleStatus};
use crate::text::{decimal, push_decimal};

verus! {

/// What the game is doing.
#[derive(Debug, Clone, Copy, PartialEq, Eq, Structural)]
pub enum Mode {
    Build,
    Running,
    Won,
}

/// What the player is doing in Build mode.
#[derive(Debug, Clone, Copy, PartialEq, Eq, Structural)]
pub enum BuildFocus {
    /// Arrow keys move the cursor. Enter places from bin.
    Cursor,
    /// A player part is selected. Arrow keys move it. Enter/Esc deselects.
    MovingPart(InstanceId),
}

/// One kind of part in the player's bin: how many there are and how many are placed.
#[derive(Debug, Clone, Copy, PartialEq, Eq, Structural)]
pub struct BinEntry {
    pub part_id: PartId,
    pub total: u32,
    pub placed: u32,
}

impl BinEntry {
    /// Parts of this kind still in the bin.
    pub open spec fn left(self) -> int {
        if self.placed <= self.total {
            self.total - self.placed
        } else {
            0
        }
    }

    pub fn available(&self) -> (r: u32)
        ensures
            r == self.left(),
    {
        self.total.saturating_sub(self.placed)
    }
}

/// Frames a status message stays up (~3 seconds at 30fps).
pub const STATUS_FRAMES: u64 = 90;

/// The state of a session, as the contracts speak of it.
pub struct SessionView {
    pub mode: Mode,
    pub focus: BuildFocus,
    pub bin: Seq<BinEntry>,
    pub selected_bin: int,
    pub player_instances: Seq<InstanceId>,
    pub status_msg: Seq<char>,
    pub status_frames: int,
}

/// The index of the first bin entry holding `part_id` at or after `from`.
pub open spec fn first_entry_from(bin: Seq<BinEntry>, part_id: PartId, from: int) -> Option<int>
    decreases bin.len() - from,
{
    if from < 0 || from >= bin.len() {
        None
    } else if bin[from].part_id == part_id {
        Some(from)
    } else {
        first_entry_from(bin, part_id, from + 1)
    }
}

/// The index of the first occurrence of `x` in `s` at or after `from`.
pub open spec fn first_position(s: Seq<InstanceId>, x: InstanceId, from: int) -> Option<int>
    decreases s.len() - from,
{
    if from < 0 || from >= s.len() {
        None
    } else if s[from] == x {
        Some(from)
    } else {
        first_position(s, x, from + 1)
    }
}

proof fn lemma_first_position_in_range(s: Seq<InstanceId>, x: InstanceId, from: int)
    ensures
        first_position(s, x, from) matches Some(p) ==> from <= p < s.len() && s[p] == x,
    decreases s.len() - from,
{
    if 0 <= from < s.len() && s[from] != x {
        lemma_first_position_in_range(s, x, from + 1);
    }
}

proof fn lemma_first_entry_in_range(bin: Seq<BinEntry>, part_id: PartId, from: int)
    ensures
        first_entry_from(bin, part_id, from) matches Some(p) ==> from <= p < bin.len()
            && bin[p].part_id == part_id,
    decreases bin.len() - from,
{
    if 0 <= from < bin.len() && bin[from].part_id != part_id {
        lemma_first_entry_in_range(bin, part_id, from + 1);
    }
}

/// Whether an instance is other than `id`.
pub open spec fn other_than(id: InstanceId) -> spec_fn(InstanceId) -> bool {
    |i: InstanceId| i != id
}

/// The status message after placing a part named `name`.
pub open spec fn placed_message(name: Seq<char>) -> Seq<char> {
    "Placed "@ + name + ". Arrows to move, Esc to deselect."@
}

impl SessionView {
    /// The selected bin entry is an entry (when there are any), and no entry
    /// has more parts placed than it holds.
    pub open spec fn wf(self) -> bool {
        &&& 0 <= self.selected_bin
        &&& (self.bin.len() > 0 ==> self.selected_bin < self.bin.len())
        &&& (self.bin.len() == 0 ==> self.selected_bin == 0)
        &&& forall|i: int| 0 <= i < self.bin.len() ==> #[trigger] self.bin[i].placed <= self.bin[i].total
    }

    pub open spec fn with_status(self, msg: Seq<char>) -> SessionView {
        SessionView { status_msg: msg, status_frames: STATUS_FRAMES as int, ..self }
    }

    /// Starting the simulation from Build mode.
    pub open spec fn started(self) -> SessionView {
        if self.mode == Mode::Build {
            SessionView { focus: BuildFocus::Cursor, mode: Mode::Running, ..self }.with_status(
                "Simulation running..."@,
            )
        } else {
            self
        }
    }

    /// Stopping a running simulation.
    pub open spec fn stopped(self) -> SessionView {
        if self.mode == Mode::Running {
            SessionView { mode: Mode::Build, ..self }.with_status(
                "Simulation stopped. Parts restored."@,
            )
        } else {
            self
        }
    }

    /// Resetting the puzzle: every placed part goes back to the bin.
    pub open spec fn reset(self) -> SessionView {
        SessionView {
            player_instances: Seq::empty(),
            bin: self.bin.map_values(|e: BinEntry| BinEntry { placed: 0, ..e }),
            mode: Mode::Build,
            focus: BuildFocus::Cursor,
            ..self
        }.with_status("Puzzle reset."@)
    }

    /// The end of a simulation tick in which the puzzle's status was `status`.
    pub open spec fn ticked(self, status: PuzzleStatus) -> SessionView {
        if self.mode == Mode::Running && status == PuzzleStatus::Won {
            SessionView { mode: Mode::Won, ..self }.with_status(Seq::empty())
        } else {
            self
        }
    }

    /// Whether placing from the bin is possible: Build mode and a selected
    /// entry with parts left.
    pub open spec fn can_place(self) -> bool {
        &&& self.mode == Mode::Build
        &&& self.selected_bin < self.bin.len()
        &&& self.bin[self.selected_bin].left() > 0
    }

    /// Asking to place from the bin: the refusal message when the entry is empty.
    pub open spec fn asked_to_place(self) -> SessionView {
        if self.mode == Mode::Build && self.selected_bin < self.bin.len() && self.bin[self.selected_bin].left()
            == 0 {
            self.with_status("No more of that part available!"@)
        } else {
            self
        }
    }

    /// A part of the selected entry was placed as instance `id`.
    pub open spec fn placed(self, id: InstanceId, name: Seq<char>) -> SessionView {
        let e = self.bin[self.selected_bin];
        SessionView {
            player_instances: self.player_instances.push(id),
            bin: self.bin.update(self.selected_bin, BinEntry { placed: (e.placed + 1) as u32, ..e }),
            focus: BuildFocus::MovingPart(id),
            ..self
        }.with_status(placed_message(name))
    }

    /// The selected player part, if a part is selected and it is one the player placed.
    pub open spec fn deletable(self) -> Option<InstanceId> {
        match self.focus {
            BuildFocus::MovingPart(id) => if self.player_instances.contains(id) {
                Some(id)
            } else {
                None
            },
            BuildFocus::Cursor => None,
        }
    }

    /// Deleting the selected player part, whose kind is `part_id` when the
    /// world still holds it: its bin entry gets the part back.
    pub open spec fn deleted(self, part_id: Option<PartId>) -> SessionView {
        match self.deletable() {
            Some(id) => {
                let bin = match part_id {
                    Some(p) => match first_entry_from(self.bin, p, 0) {
                        Some(i) => self.bin.update(
                            i,
                            BinEntry {
                                placed: (if self.bin[i].placed > 0 {
                                    self.bin[i].placed - 1
                                } else {
                                    0
                                }) as u32,
                                ..self.bin[i]
                            },
                        ),
                        None => self.bin,
                    },
                    None => self.bin,
                };
                SessionView {
                    bin: bin,
                    player_instances: self.player_instances.filter(other_than(id)),
                    focus: BuildFocus::Cursor,
                    ..self
                }.with_status("Part returned to bin."@)
            },
            None => self,
        }
    }

    pub open spec fn next_bin(self) -> SessionView {
        if self.bin.len() > 0 {
            SessionView { selected_bin: (self.selected_bin + 1) % (self.bin.len() as int), ..self }
        } else {
            self
        }
    }

    pub open spec fn prev_bin(self) -> SessionView {
        if self.bin.len() > 0 {
            SessionView {
                selected_bin: (self.selected_bin + self.bin.len() - 1) % (self.bin.len() as int),
                ..self
            }
        } else {
            self
        }
    }

    /// The player part that Tab selects next: the first one when the cursor
    /// has focus, else the one after the selected part (cyclically).
    pub open spec fn next_player_part(self) -> Option<InstanceId> {
        if self.player_instances.len() == 0 {
            None
        } else {
            Some(self.player_instances[self.next_player_index()])
        }
    }

    /// Position in `player_instances` of the part that Tab selects next.
    pub open spec fn next_player_index(self) -> int {
        match self.focus {
            BuildFocus::Cursor => 0,
            BuildFocus::MovingPart(id) => {
                let pos = match first_position(self.player_instances, id, 0) {
                    Some(p) => p,
                    None => 0,
                };
                (pos + 1) % (self.player_instances.len() as int)
            },
        }
    }
}

/// Whether `ids` holds `id`.
fn contains_instance(ids: &Vec<InstanceId>, id: InstanceId) -> (r: bool)
    ensures
        r == ids@.contains(id),
{
    for i in 0..ids.len()
        invariant
            forall|k: int| 0 <= k < i ==> ids@[k] != id,
    {
        if ids[i] == id {
            return true;
        }
    }
    false
}

/// The position of the first occurrence of `id` in `ids`.
fn position_of(ids: &Vec<InstanceId>, id: InstanceId) -> (r: Option<usize>)
    ensures
        r matches Some(i) ==> first_position(ids@, id, 0) == Some(i as int),
        r is None ==> first_position(ids@, id, 0) is None,
        r matches Some(i) ==> i < ids@.len(),
{
    proof {
        lemma_first_position_in_range(ids@, id, 0);
    }
    let mut i: usize = 0;
    while i < ids.len()
        invariant
            i <= ids@.len(),
            first_position(ids@, id, 0) == first_position(ids@, id, i as int),
        decreases ids@.len() - i,
    {
        if ids[i] == id {
            return Some(i);
        }
        i = i + 1;
    }
    None
}

/// `ids` without any occurrence of `id`.
fn without_instance(ids: &Vec<InstanceId>, id: InstanceId) -> (r: Vec<InstanceId>)
    ensures
        r@ == ids@.filter(other_than(id)),
{
    let mut r: Vec<InstanceId> = Vec::new();
    for k in 0..ids.len()
        invariant
            r@ == ids@.take(k as int).filter(other_than(id)),
    {
        proof {
            reveal(Seq::filter);
        }
        assert(ids@.take(k + 1).drop_last() =~= ids@.take(k as int));
        assert(ids@.take(k + 1).last() == ids@[k as int]);
        if ids[k] != id {
            r.push(ids[k]);
        }
    }
    assert(ids@.take(ids@.len() as int) =~= ids@);
    r
}

/// The index of the first entry of `bin` holding `part_id`.
fn first_entry(bin: &Vec<BinEntry>, part_id: PartId) -> (r: Option<usize>)
    ensures
        r matches Some(i) ==> first_entry_from(bin@, part_id, 0) == Some(i as int),
        r is None ==> first_entry_from(bin@, part_id, 0) is None,
        r matches Some(i) ==> i < bin@.len(),
{
    proof {
        lemma_first_entry_in_range(bin@, part_id, 0);
    }
    let mut i: usize = 0;
    while i < bin.len()
        invariant
            i <= bin@.len(),
            first_entry_from(bin@, part_id, 0) == first_entry_from(bin@, part_id, i as int),
        decreases bin@.len() - i,
    {
        if bin[i].part_id == part_id {
            return Some(i);
        }
        i = i + 1;
    }
    None
}

/// `bin` with entry `i` replaced by `e`.
fn replaced(bin: &Vec<BinEntry>, i: usize, e: BinEntry) -> (r: Vec<BinEntry>)
    requires
        i < bin@.len(),
    ensures
        r@ == bin@.update(i as int, e),
{
    let mut r: Vec<BinEntry> = Vec::new();
    for k in 0..bin.len()
        invariant
            i < bin@.len(),
            r@ == bin@.update(i as int, e).take(k as int),
    {
        if k == i {
            r.push(e);
        } else {
            r.push(bin[k]);
        }
        assert(bin@.update(i as int, e).take(k + 1) =~= bin@.update(i as int, e).take(k as int).push(
            r@[k as int],
        ));
    }
    assert(bin@.update(i as int, e).take(bin@.len() as int) =~= bin@.update(i as int, e));
    r
}

/// The bookkeeping of a game session.
pub struct Session {
    mode: Mode,
    focus: BuildFocus,
    bin: Vec<BinEntry>,
    selected_bin: usize,
    player_instances: Vec<InstanceId>,
    status_msg: String,
    status_frames: u64,
}

impl View for Session {
    type V = SessionView;

    closed spec fn view(&self) -> SessionView {
        SessionView {
            mode: self.mode,
            focus: self.focus,
            bin: self.bin@,
            selected_bin: self.selected_bin as int,
            player_instances: self.player_instances@,
            status_msg: self.status_msg@,
            status_frames: self.status_frames as int,
        }
    }
}

impl Session {
    #[verifier::type_invariant]
    spec fn inv(self) -> bool {
        self@.wf()
    }

    /// A session in Build mode with a full bin for the given parts.
    pub fn new(bin_parts: &Vec<BinPart>) -> (r: Session)
        ensures
            r@.wf(),
            r@.mode == Mode::Build,
            r@.focus == BuildFocus::Cursor,
            r@.bin.len() == bin_parts@.len(),
            forall|i: int|
                0 <= i < bin_parts@.len() ==> #[trigger] r@.bin[i] == (BinEntry {
                    part_id: bin_parts@[i].part_id,
                    total: bin_parts@[i].quantity,
                    placed: 0,
                }),
            r@.selected_bin == 0,
            r@.player_instances == Seq::<InstanceId>::empty(),
            r@.status_msg == Seq::<char>::empty(),
            r@.status_frames == 0,
    {
        let mut bin: Vec<BinEntry> = Vec::new();
        for i in 0..bin_parts.len()
            invariant
                bin@.len() == i,
                forall|k: int|
                    0 <= k < i ==> #[trigger] bin@[k] == (BinEntry {
                        part_id: bin_parts@[k].part_id,
                        total: bin_parts@[k].quantity,
                        placed: 0,
                    }),
        {
            bin.push(BinEntry { part_id: bin_parts[i].part_id, total: bin_parts[i].quantity, placed: 0 });
        }
        Session {
            mode: Mode::Build,
            focus: BuildFocus::Cursor,
            bin,
            selected_bin: 0,
            player_instances: Vec::new(),
            status_msg: String::new(),
            status_frames: 0,
        }
    }

    pub fn mode(&self) -> (r: Mode)
        ensures
            r == self@.mode,
    {
        self.mode
    }

    pub fn focus(&self) -> (r: BuildFocus)
        ensures
            r == self@.focus,
    {
        self.focus
    }

    pub fn bin(&self) -> (r: &Vec<BinEntry>)
        ensures
            r@ == self@.bin,
    {
        &self.bin
    }

    pub fn selected_bin(&self) -> (r: usize)
        ensures
            r == self@.selected_bin,
    {
        self.selected_bin
    }

    pub fn player_instances(&self) -> (r: &Vec<InstanceId>)
        ensures
            r@ == self@.player_instances,
    {
        &self.player_instances
    }

    pub fn status_msg(&self) -> (r: &str)
        ensures
            r@ == self@.status_msg,
    {
        self.status_msg.as_str()
    }

    pub fn status_frames(&self) -> (r: u64)
        ensures
            r == self@.status_frames,
    {
        self.status_frames
    }

    pub fn set_status(&mut self, msg: &str)
        ensures
            final(self)@ == old(self)@.with_status(msg@),
    {
        proof {
            use_type_invariant(&*self);
        }
        self.status_msg = String::from_str(msg);
        self.status_frames = STATUS_FRAMES;
    }

    /// Start the simulation if building; `true` when it started (the world
    /// should then be snapshotted for the stop).
    pub fn start_sim(&mut self) -> (started: bool)
        ensures
            started == (old(self)@.mode == Mode::Build),
            final(self)@ == old(self)@.started(),
            final(self)@.wf(),
    {
        proof {
            use_type_invariant(&*self);
        }
        if self.mode == Mode::Build {
            self.focus = BuildFocus::Cursor;
            self.mode = Mode::Running;
            self.set_status("Simulation running...");
            proof {
                use_type_invariant(&*self);
            }
            true
        } else {
            false
        }
    }

    /// Stop a running simulation; `true` when it stopped (the world should
    /// then be restored from the snapshot).
    pub fn stop_sim(&mut self) -> (stopped: bool)
        ensures
            stopped == (old(self)@.mode == Mode::Running),
            final(self)@ == old(self)@.stopped(),
            final(self)@.wf(),
    {
        proof {
            use_type_invariant(&*self);
        }
        if self.mode == Mode::Running {
            self.mode = Mode::Build;
            self.set_status("Simulation stopped. Parts restored.");
            proof {
                use_type_invariant(&*self);
            }
            true
        } else {
            false
        }
    }

    /// Reset the puzzle: the player's parts return to the bin. Returns the
    /// instances the player had placed, for removal from the world.
    pub fn reset_puzzle(&mut self) -> (removed: Vec<InstanceId>)
        ensures
            removed@ == old(self)@.player_instances,
            final(self)@ == old(self)@.reset(),
            final(self)@.wf(),
    {
        proof {
            use_type_invariant(&*self);
        }
        let mut removed: Vec<InstanceId> = Vec::new();
        std::mem::swap(&mut removed, &mut self.player_instances);
        let mut bin: Vec<BinEntry> = Vec::new();
        for i in 0..self.bin.len()
            invariant
                bin@.len() == i,
                forall|k: int|
                    0 <= k < i ==> #[trigger] bin@[k] == (BinEntry { placed: 0, ..self.bin@[k] }),
        {
            let e = self.bin[i];
            bin.push(BinEntry { placed: 0, ..e });
        }
        assert(bin@ =~= old(self)@.bin.map_values(|e: BinEntry| BinEntry { placed: 0, ..e }));
        self.bin = bin;
        self.mode = Mode::Build;
        self.focus = BuildFocus::Cursor;
        self.set_status("Puzzle reset.");
        proof {
            use_type_invariant(&*self);
        }
        removed
    }

    /// Record the end of a simulation tick in which the puzzle's status was `status`.
    pub fn finish_tick(&mut self, status: PuzzleStatus)
        ensures
            final(self)@ == old(self)@.ticked(status),
            final(self)@.wf(),
    {
        proof {
            use_type_invariant(&*self);
        }
        if self.mode == Mode::Running && status == PuzzleStatus::Won {
            self.mode = Mode::Won;
            proof {
                reveal_strlit("");
                assert(""@ =~= Seq::<char>::empty());
            }
            self.set_status("");
        }
        proof {
            use_type_invariant(&*self);
        }
    }

    /// The part to place from the bin, if placing is possible; when the
    /// selected entry is empty the status says so.
    pub fn part_to_place(&mut self) -> (r: Option<PartId>)
        ensures
            r is Some <==> old(self)@.can_place(),
            r matches Some(p) ==> p == old(self)@.bin[old(self)@.selected_bin].part_id,
            final(self)@ == old(self)@.asked_to_place(),
            final(self)@.wf(),
    {
        proof {
            use_type_invariant(&*self);
        }
        if self.mode != Mode::Build {
            return None;
        }
        if self.selected_bin >= self.bin.len() {
            return None;
        }
        let entry = self.bin[self.selected_bin];
        if entry.available() == 0 {
            self.set_status("No more of that part available!");
            proof {
                use_type_invariant(&*self);
            }
            return None;
        }
        Some(entry.part_id)
    }

    /// Record that a part of the selected entry was placed as instance `id`;
    /// the placed part becomes the selection.
    pub fn record_placement(&mut self, id: InstanceId)
        requires
            old(self)@.can_place(),
        ensures
            final(self)@ == old(self)@.placed(
                id,
                old(self)@.bin[old(self)@.selected_bin].part_id.name_text(),
            ),
            final(self)@.wf(),
    {
        proof {
            use_type_invariant(&*self);
        }
        let sel = self.selected_bin;
        let e = self.bin[sel];
        let mut players: Vec<InstanceId> = Vec::new();
        std::mem::swap(&mut players, &mut self.player_instances);
        players.push(id);
        self.player_instances = players;
        self.bin = replaced(&self.bin, sel, BinEntry { placed: e.placed + 1, ..e });
        self.focus = BuildFocus::MovingPart(id);
        let mut msg = String::from_str("Placed ");
        msg.append(e.part_id.name());
        msg.append(". Arrows to move, Esc to deselect.");
        self.set_status(msg.as_str());
        proof {
            use_type_invariant(&*self);
        }
    }

    /// The selected part, if it is one the player placed (only those can be deleted).
    pub fn deletable(&self) -> (r: Option<InstanceId>)
        ensures
            r == self@.deletable(),
    {
        match self.focus {
            BuildFocus::MovingPart(id) => {
                if contains_instance(&self.player_instances, id) {
                    Some(id)
                } else {
                    None
                }
            },
            BuildFocus::Cursor => None,
        }
    }

    /// Delete the selected player part, whose kind is `part_id` when the world
    /// still holds it. Returns the instance to remove from the world.
    pub fn delete_selected(&mut self, part_id: Option<PartId>) -> (r: Option<InstanceId>)
        ensures
            r == old(self)@.deletable(),
            final(self)@ == old(self)@.deleted(part_id),
            final(self)@.wf(),
    {
        proof {
            use_type_invariant(&*self);
        }
        let target = self.deletable();
        match target {
            Some(id) => {
                let ghost v0 = self@;
                if let Some(p) = part_id {
                    proof {
                        lemma_first_entry_in_range(v0.bin, p, 0);
                    }
                    if let Some(i) = first_entry(&self.bin, p) {
                        let e = self.bin[i];
                        assert(first_entry_from(v0.bin, p, 0) == Some(i as int));
                        let ne = BinEntry { placed: e.placed.saturating_sub(1), ..e };
                        assert(ne == BinEntry {
                                placed: (if v0.bin[i as int].placed > 0 {
                                    v0.bin[i as int].placed - 1
                                } else {
                                    0
                                }) as u32,
                                ..v0.bin[i as int]
                            });
                        self.bin = replaced(&self.bin, i, ne);
                    } else {
                        assert(first_entry_from(v0.bin, p, 0) is None);
                    }
                }
                assert(self.bin@ == match part_id {
                    Some(p) => match first_entry_from(v0.bin, p, 0) {
                        Some(i) => v0.bin.update(
                            i,
                            BinEntry {
                                placed: (if v0.bin[i].placed > 0 {
                                    v0.bin[i].placed - 1
                                } else {
                                    0
                                }) as u32,
                                ..v0.bin[i]
                            },
                        ),
                        None => v0.bin,
                    },
                    None => v0.bin,
                });
                self.player_instances = without_instance(&self.player_instances, id);
                self.focus = BuildFocus::Cursor;
                self.set_status("Part returned to bin.");
                proof {
                    use_type_invariant(&*self);
                }
                Some(id)
            },
            None => None,
        }
    }

    /// Select the next bin entry (cyclically).
    pub fn select_next_bin(&mut self)
        ensures
            final(self)@ == old(self)@.next_bin(),
            final(self)@.wf(),
    {
        proof {
            use_type_invariant(&*self);
        }
        if !self.bin.is_empty() {
            let n = self.bin.len();
            self.selected_bin = (self.selected_bin + 1) % n;
        }
        proof {
            use_type_invariant(&*self);
        }
    }

    /// Select the previous bin entry (cyclically).
    pub fn select_prev_bin(&mut self)
        ensures
            final(self)@ == old(self)@.prev_bin(),
            final(self)@.wf(),
    {
        proof {
            use_type_invariant(&*self);
        }
        if !self.bin.is_empty() {
            let n = self.bin.len();
            // (selected + n - 1) % n, without the intermediate sum
            self.selected_bin = if self.selected_bin == 0 {
                n - 1
            } else {
                self.selected_bin - 1
            };
            proof {
                let s = old(self)@.selected_bin;
                if s == 0 {
                    lemma_fundamental_div_mod_converse(s + n - 1, n as int, 0, n - 1);
                } else {
                    lemma_fundamental_div_mod_converse(s + n - 1, n as int, 1, s - 1);
                }
            }
        }
        proof {
            use_type_invariant(&*self);
        }
    }

    /// Select the next player part (Tab). Returns the newly selected part.
    pub fn select_next_player_part(&mut self) -> (r: Option<InstanceId>)
        ensures
            r == old(self)@.next_player_part(),
            final(self)@ == (match r {
                Some(id) => SessionView { focus: BuildFocus::MovingPart(id), ..old(self)@ },
                None => old(self)@,
            }),
            final(self)@.wf(),
    {
        proof {
            use_type_invariant(&*self);
        }
        if self.player_instances.is_empty() {
            return None;
        }
        let n = self.player_instances.len();
        proof {
            if let BuildFocus::MovingPart(id) = self.focus {
                lemma_first_position_in_range(self.player_instances@, id, 0);
            }
        }
        let next = match self.focus {
            BuildFocus::Cursor => 0,
            BuildFocus::MovingPart(id) => {
                let pos = match position_of(&self.player_instances, id) {
                    Some(p) => p,
                    None => 0,
                };
                (pos + 1) % n
            },
        };
        assert(next == old(self)@.next_player_index());
        let id = self.player_instances[next];
        self.focus = BuildFocus::MovingPart(id);
        proof {
            use_type_invariant(&*self);
        }
        Some(id)
    }

    /// Enter on a selected part: it stays where it is and the cursor takes focus.
    pub fn confirm_part(&mut self)
        ensures
            final(self)@ == (match old(self)@.focus {
                BuildFocus::MovingPart(_) => SessionView {
                    focus: BuildFocus::Cursor,
                    ..old(self)@
                }.with_status("Part placed."@),
                BuildFocus::Cursor => old(self)@,
            }),
            final(self)@.wf(),
    {
        proof {
            use_type_invariant(&*self);
        }
        if let BuildFocus::MovingPart(_) = self.focus {
            self.focus = BuildFocus::Cursor;
            self.set_status("Part placed.");
        }
        proof {
            use_type_invariant(&*self);
        }
    }

    /// Esc: the cursor takes focus.
    pub fn deselect(&mut self)
        ensures
            final(self)@ == (SessionView { focus: BuildFocus::Cursor, ..old(self)@ }),
            final(self)@.wf(),
    {
        proof {
            use_type_invariant(&*self);
        }
        self.focus = BuildFocus::Cursor;
        proof {
            use_type_invariant(&*self);
        }
    }

    /// Count one frame off the status message's display time.
    pub fn fade_status(&mut self)
        ensures
            final(self)@ == (SessionView {
                status_frames: if old(self)@.status_frames > 0 {
                    old(self)@.status_frames - 1
                } else {
                    0
                },
                ..old(self)@
            }),
    {
        proof {
            use_type_invariant(&*self);
        }
        if self.status_frames > 0 {
            self.status_frames = self.status_frames - 1;
        }
    }
}

// ── Level navigation ─────────────────────────────────────────────

/// The level after `current`, unless `current` is the last of `num`.
pub fn level_after(current: usize, num: usize) -> (r: Option<usize>)
    ensures
        r == (if current + 1 < num { Some((current + 1) as usize) } else { None::<usize> }),
{
    if current < num && current + 1 < num {
        Some(current + 1)
    } else {
        None
    }
}

/// The level before `current`, unless `current` is the first.
pub fn level_before(current: usize) -> (r: Option<usize>)
    ensures
        r == (if current > 0 { Some((current - 1) as usize) } else { None::<usize> }),
{
    if current > 0 {
        Some(current - 1)
    } else {
        None
    }
}

/// The status line naming level `current` (counted from zero) of `num`.
pub fn level_status(current: usize, num: usize) -> (r: String)
    requires
        current < u64::MAX,
    ensures
        r@ == "Level "@ + decimal((current + 1) as nat) + "/"@ + decimal(num as nat),
{
    let mut s = String::from_str("Level ");
    push_decimal(&mut s, current as u64 + 1);
    s.append("/");
    push_decimal(&mut s, num as u64);
    s
}

/// `first_position` finds `s[p]` at `p` when no earlier element equals it,
/// and finds nothing when no element does.
proof fn lemma_first_position_is_first(s: Seq<InstanceId>, x: InstanceId, from: int, p: int)
    requires
        0 <= from <= p,
        p < s.len() ==> s[p] == x,
        forall|q: int| from <= q < p && q < s.len() ==> s[q] != x,
    ensures
        p < s.len() ==> first_position(s, x, from) == Some(p),
        p >= s.len() ==> first_position(s, x, from) is None,
    decreases s.len() - from,
{
    if from < s.len() && from < p {
        lemma_first_position_is_first(s, x, from + 1, p);
    }
}

/// Tab selects the placed part after the selected one (the first one after
/// the last), the first placed part when the cursor has the focus or the
/// selected part is not one the player placed, and nothing when the player
/// has placed no parts.
pub proof fn lemma_tab_selects_the_next_part(v: SessionView, p: int)
    ensures
        v.player_instances.len() == 0 ==> v.next_player_part() is None,
        v.player_instances.len() > 0 && v.focus == BuildFocus::Cursor ==> v.next_player_part()
            == Some(v.player_instances[0]),
        0 <= p < v.player_instances.len() && v.focus == BuildFocus::MovingPart(
            v.player_instances[p],
        ) && (forall|q: int| 0 <= q < p ==> v.player_instances[q] != v.player_instances[p])
            ==> v.next_player_part() == Some(
            v.player_instances[(p + 1) % (v.player_instances.len() as int)],
        ),
        v.player_instances.len() > 0 && (v.focus matches BuildFocus::MovingPart(id)
            && !v.player_instances.contains(id)) ==> v.next_player_part() == Some(
            v.player_instances[1int % (v.player_instances.len() as int)],
        ),
{
    let s = v.player_instances;
    if 0 <= p < s.len() && v.focus == BuildFocus::MovingPart(s[p]) && (forall|q: int|
        0 <= q < p ==> s[q] != s[p]) {
        lemma_first_position_is_first(s, s[p], 0, p);
    }
    if let BuildFocus::MovingPart(id) = v.focus {
        if !s.contains(id) {
            lemma_first_position_is_first(s, id, 0, s.len() as int);
        }
    }
}

/// `first_entry_from` finds entry `q` when it is the first holding `part_id`,
/// and nothing when no entry holds it.
proof fn lemma_first_entry_is_first(bin: Seq<BinEntry>, part_id: PartId, from: int, q: int)
    requires
        0 <= from <= q,
        q < bin.len() ==> bin[q].part_id == part_id,
        forall|k: int| from <= k < q && k < bin.len() ==> bin[k].part_id != part_id,
    ensures
        q < bin.len() ==> first_entry_from(bin, part_id, from) == Some(q),
        q >= bin.len() ==> first_entry_from(bin, part_id, from) is None,
    decreases bin.len() - from,
{
    if from < bin.len() && from < q {
        lemma_first_entry_is_first(bin, part_id, from + 1, q);
    }
}

/// Selecting the next bin entry moves one entry down, from the last back to
/// the first; selecting the previous one moves one up, from the first to the
/// last. An empty bin keeps its selection.
pub proof fn lemma_bin_selection_steps(v: SessionView)
    requires
        v.wf(),
    ensures
        v.bin.len() == 0 ==> v.next_bin() == v && v.prev_bin() == v,
        v.bin.len() > 0 ==> v.next_bin().selected_bin == (if v.selected_bin + 1 < v.bin.len() {
            v.selected_bin + 1
        } else {
            0
        }),
        v.bin.len() > 0 ==> v.prev_bin().selected_bin == (if v.selected_bin > 0 {
            v.selected_bin - 1
        } else {
            v.bin.len() - 1
        }),
        v.next_bin().bin == v.bin && v.prev_bin().bin == v.bin,
{
    let n = v.bin.len() as int;
    if n > 0 {
        let s = v.selected_bin;
        if s + 1 < n {
            lemma_fundamental_div_mod_converse(s + 1, n, 0, s + 1);
        } else {
            lemma_fundamental_div_mod_converse(s + 1, n, 1, 0);
        }
        if s > 0 {
            lemma_fundamental_div_mod_converse(s + n - 1, n, 1, s - 1);
        } else {
            lemma_fundamental_div_mod_converse(s + n - 1, n, 0, n - 1);
        }
    }
}

/// Deleting the selected part gives it back to the first bin entry of its
/// kind (one fewer placed, never below zero), leaves every other entry as it
/// was, and drops the part from the player's parts, keeping all others.
pub proof fn lemma_delete_returns_to_first_entry(v: SessionView, p: PartId, q: int)
    requires
        v.deletable() is Some,
        0 <= q < v.bin.len(),
        v.bin[q].part_id == p,
        forall|k: int| 0 <= k < q ==> v.bin[k].part_id != p,
    ensures
        v.deleted(Some(p)).bin.len() == v.bin.len(),
        v.deleted(Some(p)).bin[q].placed == (if v.bin[q].placed > 0 {
            v.bin[q].placed - 1
        } else {
            0
        }),
        v.deleted(Some(p)).bin[q].total == v.bin[q].total,
        v.deleted(Some(p)).bin[q].part_id == p,
        forall|k: int| 0 <= k < v.bin.len() && k != q ==> v.deleted(Some(p)).bin[k] == v.bin[k],
        !v.deleted(Some(p)).player_instances.contains(v.deletable()->0),
        forall|j: int|
            0 <= j < v.player_instances.len() && v.player_instances[j] != v.deletable()->0
                ==> v.deleted(Some(p)).player_instances.contains(#[trigger] v.player_instances[j]),
        v.deleted(Some(p)).focus == BuildFocus::Cursor,
{
    lemma_first_entry_is_first(v.bin, p, 0, q);
    let id = v.deletable()->0;
    let r = v.player_instances.filter(other_than(id));
    if r.contains(id) {
        let k = choose|k: int| 0 <= k < r.len() && r[k] == id;
        v.player_instances.lemma_filter_pred(other_than(id), k);
    }
    assert forall|j: int|
        0 <= j < v.player_instances.len() && v.player_instances[j] != id implies r.contains(
        #[trigger] v.player_instances[j],
    ) by {
        v.player_instances.lemma_filter_contains(other_than(id), j);
    }
}

/// Placing a part takes it from the selected bin entry (one more placed,
/// the other entries unchanged), adds the new instance after the player's
/// other parts, and selects it.
pub proof fn lemma_placing_uses_selected_entry(v: SessionView, id: InstanceId, name: Seq<char>)
    requires
        v.wf(),
        v.can_place(),
    ensures
        v.placed(id, name).bin.len() == v.bin.len(),
        v.placed(id, name).bin[v.selected_bin].placed == v.bin[v.selected_bin].placed + 1,
        v.placed(id, name).bin[v.selected_bin].total == v.bin[v.selected_bin].total,
        v.placed(id, name).bin[v.selected_bin].part_id == v.bin[v.selected_bin].part_id,
        forall|k: int|
            0 <= k < v.bin.len() && k != v.selected_bin ==> v.placed(id, name).bin[k] == v.bin[k],
        v.placed(id, name).player_instances.len() == v.player_instances.len() + 1,
        v.placed(id, name).player_instances.last() == id,
        forall|k: int|
            0 <= k < v.player_instances.len() ==> v.placed(id, name).player_instances[k]
                == v.player_instances[k],
        v.placed(id, name).focus == BuildFocus::MovingPart(id),
{
}

// ── Laws ─────────────────────────────────────────────────────────

/// Stopping a simulation right after starting it returns to building with
/// the bin, the selection and the player's parts as they were.
pub proof fn lemma_stop_undoes_start(v: SessionView)
    requires
        v.mode == Mode::Build,
    ensures
        v.started().stopped().mode == Mode::Build,
        v.started().stopped().focus == BuildFocus::Cursor,
        v.started().stopped().bin == v.bin,
        v.started().stopped().selected_bin == v.selected_bin,
        v.started().stopped().player_instances == v.player_instances,
{
}

proof fn lemma_filter_keeps_all_others(s: Seq<InstanceId>, id: InstanceId)
    requires
        !s.contains(id),
    ensures
        s.filter(other_than(id)) == s,
    decreases s.len(),
{
    reveal(Seq::filter);
    if s.len() > 0 {
        assert(!s.drop_last().contains(id)) by {
            if s.drop_last().contains(id) {
                let k = choose|k: int| 0 <= k < s.drop_last().len() && s.drop_last()[k] == id;
                assert(s[k] == id);
            }
        }
        lemma_filter_keeps_all_others(s.drop_last(), id);
        assert(s.last() != id) by {
            assert(s[s.len() - 1] == s.last());
        }
        assert(s.drop_last().push(s.last()) =~= s);
    }
}

/// Deleting a part right after placing it from the bin returns it: the bin
/// and the player's parts are as before (when the selected entry is the
/// first one of its kind and the new instance id is fresh).
pub proof fn lemma_delete_undoes_placement(v: SessionView, id: InstanceId, name: Seq<char>)
    requires
        v.wf(),
        v.can_place(),
        !v.player_instances.contains(id),
        first_entry_from(v.bin, v.bin[v.selected_bin].part_id, 0) == Some(v.selected_bin),
    ensures
        v.placed(id, name).deleted(Some(v.bin[v.selected_bin].part_id)).bin == v.bin,
        v.placed(id, name).deleted(
            Some(v.bin[v.selected_bin].part_id),
        ).player_instances == v.player_instances,
        v.placed(id, name).deleted(Some(v.bin[v.selected_bin].part_id)).focus == BuildFocus::Cursor,
{
    let w = v.placed(id, name);
    let p = v.bin[v.selected_bin].part_id;
    assert(w.player_instances.contains(id)) by {
        assert(w.player_instances[w.player_instances.len() - 1] == id);
    }
    assert(first_entry_from(w.bin, p, 0) == first_entry_from(v.bin, p, 0)) by {
        lemma_first_entry_same_prefix(v.bin, w.bin, p, 0, v.selected_bin);
    }
    assert(w.deleted(Some(p)).bin =~= v.bin);
    reveal(Seq::filter);
    assert(v.player_instances.push(id).drop_last() =~= v.player_instances);
    lemma_filter_keeps_all_others(v.player_instances, id);
}

/// Two bins that agree on the part kinds of the entries up to `sel`, where
/// `sel` holds `p`, find the same first entry of `p`.
proof fn lemma_first_entry_same_prefix(a: Seq<BinEntry>, b: Seq<BinEntry>, p: PartId, from: int, sel: int)
    requires
        a.len() == b.len(),
        0 <= from <= sel < a.len(),
        forall|i: int| 0 <= i <= sel ==> #[trigger] a[i].part_id == b[i].part_id,
        a[sel].part_id == p,
    ensures
        first_entry_from(a, p, from) == first_entry_from(b, p, from),
    decreases sel - from,
{
    if a[from].part_id != p {
        lemma_first_entry_same_prefix(a, b, p, from + 1, sel);
    }
}

/// After a reset every bin entry holds all its parts again and the player
/// has no parts placed.
pub proof fn lemma_reset_refills_bin(v: SessionView)
    ensures
        v.reset().bin.len() == v.bin.len(),
        forall|i: int| 0 <= i < v.bin.len() ==> (#[trigger] v.reset().bin[i]).left() == v.bin[i].total,
        v.reset().player_instances.len() == 0,
        v.reset().mode == Mode::Build,
{
}

/// Selecting the next bin entry and then the previous one comes back to
/// the same entry.
pub proof fn lemma_prev_undoes_next_bin(v: SessionView)
    requires
        v.wf(),
    ensures
        v.next_bin().prev_bin() == v,
{
    let n = v.bin.len() as int;
    if n > 0 {
        let s = v.selected_bin;
        if s + 1 < n {
            lemma_fundamental_div_mod_converse(s + 1, n, 0, s + 1);
            lemma_fundamental_div_mod_converse(s + 1 + n - 1, n, 1, s);
        } else {
            lemma_fundamental_div_mod_converse(s + 1, n, 1, 0);
            lemma_fundamental_div_mod_converse(0 + n - 1, n, 0, n - 1);
        }
    }
}

/// A won puzzle stays won: neither ticks nor start/stop requests change it;
/// only a reset leaves it.
pub proof fn lemma_won_is_final(v: SessionView, status: PuzzleStatus)
    requires
        v.mode == Mode::Won,
    ensures
        v.ticked(status) == v,
        v.started() == v,
        v.stopped() == v,
        v.asked_to_place() == v,
        !v.can_place(),
{
}

} // verus!
