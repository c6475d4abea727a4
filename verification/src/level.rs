//! Level definitions: resolving the names a level file uses for parts,
//! world edges and labels.
//!
//! Parsing the level file and placing parts at their (floating-point)
//! positions is done by the game program; this module decides what the names
//! in a level mean and which errors a level has.
use vstd::prelude::*;

use crate::parts::balls::BallType;
use crate::parts::inclines::InclineType;
use crate::parts::walls::WallType;
use crate::parts::PartId;
use crate::puzzle::{BinPart, InstanceId, WorldEdge};
use crate::text::text_eq;

verus! {

/// A bin entry of a level file: a part kind by name and how many the player gets.
#[derive(Debug, Clone)]
pub struct BinPartDef {
    pub kind: String,
    pub quantity: u32,
}

/// Why a level definition cannot be built.
#[derive(Debug, Clone, PartialEq, Eq)]
pub enum LevelError {
    /// A placed part names a kind that is not known.
    UnknownPartKind(String),
    /// A win condition references a label that no placed part has.
    UnknownLabel(String),
    /// A bin entry names a kind that is not known.
    UnknownBinPartKind(String),
}

// ── Part name resolution ─────────────────────────────────────────

/// The part that a level file's kind name stands for.
pub open spec fn part_for_kind(kind: Seq<char>) -> Option<PartId> {
    if kind == "BowlingBall"@ {
        Some(PartId::Ball(BallType::BowlingBall))
    } else if kind == "Cannonball"@ {
        Some(PartId::Ball(BallType::Cannonball))
    } else if kind == "Basketball"@ {
        Some(PartId::Ball(BallType::Basketball))
    } else if kind == "SoccerBall"@ {
        Some(PartId::Ball(BallType::SoccerBall))
    } else if kind == "Baseball"@ {
        Some(PartId::Ball(BallType::Baseball))
    } else if kind == "TennisBall"@ {
        Some(PartId::Ball(BallType::TennisBall))
    } else if kind == "SuperBall"@ {
        Some(PartId::Ball(BallType::SuperBall))
    } else if kind == "Pinball"@ {
        Some(PartId::Ball(BallType::Pinball))
    } else if kind == "PoolBall"@ {
        Some(PartId::Ball(BallType::PoolBall))
    } else if kind == "ProgrammableBall"@ {
        Some(PartId::Ball(BallType::ProgrammableBall))
    } else if kind == "BrickWall"@ {
        Some(PartId::Wall(WallType::BrickWall))
    } else if kind == "YellowBrickWall"@ {
        Some(PartId::Wall(WallType::YellowBrickWall))
    } else if kind == "CinderBlockWall"@ {
        Some(PartId::Wall(WallType::CinderBlockWall))
    } else if kind == "GrecoRomanWall"@ {
        Some(PartId::Wall(WallType::GrecoRomanWall))
    } else if kind == "WoodenWall"@ {
        Some(PartId::Wall(WallType::WoodenWall))
    } else if kind == "LogWall"@ {
        Some(PartId::Wall(WallType::LogWall))
    } else if kind == "CautionWall"@ {
        Some(PartId::Wall(WallType::CautionWall))
    } else if kind == "SandWall"@ {
        Some(PartId::Wall(WallType::SandWall))
    } else if kind == "PipeWall"@ {
        Some(PartId::Wall(WallType::PipeWall))
    } else if kind == "CurvedPipeWall"@ {
        Some(PartId::Wall(WallType::CurvedPipeWall))
    } else if kind == "GrassFloor"@ {
        Some(PartId::Wall(WallType::GrassFloor))
    } else if kind == "ScaffoldBarrier"@ {
        Some(PartId::Wall(WallType::ScaffoldBarrier))
    } else if kind == "WoodenBarrier"@ {
        Some(PartId::Wall(WallType::WoodenBarrier))
    } else if kind == "LatticeArchway"@ {
        Some(PartId::Wall(WallType::LatticeArchway))
    } else if kind == "MarbleArchway"@ {
        Some(PartId::Wall(WallType::MarbleArchway))
    } else if kind == "BrickIncline"@ {
        Some(PartId::Incline(InclineType::BrickIncline))
    } else if kind == "YellowBrickIncline"@ {
        Some(PartId::Incline(InclineType::YellowBrickIncline))
    } else if kind == "GraniteIncline"@ {
        Some(PartId::Incline(InclineType::GraniteIncline))
    } else {
        None
    }
}

pub fn resolve_part_id(name: &str) -> (r: Option<PartId>)
    ensures
        r == part_for_kind(name@),
{
    if text_eq(name, "BowlingBall") {
        return Some(PartId::Ball(BallType::BowlingBall));
    }
    if text_eq(name, "Cannonball") {
        return Some(PartId::Ball(BallType::Cannonball));
    }
    if text_eq(name, "Basketball") {
        return Some(PartId::Ball(BallType::Basketball));
    }
    if text_eq(name, "SoccerBall") {
        return Some(PartId::Ball(BallType::SoccerBall));
    }
    if text_eq(name, "Baseball") {
        return Some(PartId::Ball(BallType::Baseball));
    }
    if text_eq(name, "TennisBall") {
        return Some(PartId::Ball(BallType::TennisBall));
    }
    if text_eq(name, "SuperBall") {
        return Some(PartId::Ball(BallType::SuperBall));
    }
    if text_eq(name, "Pinball") {
        return Some(PartId::Ball(BallType::Pinball));
    }
    if text_eq(name, "PoolBall") {
        return Some(PartId::Ball(BallType::PoolBall));
    }
    if text_eq(name, "ProgrammableBall") {
        return Some(PartId::Ball(BallType::ProgrammableBall));
    }
    if text_eq(name, "BrickWall") {
        return Some(PartId::Wall(WallType::BrickWall));
    }
    if text_eq(name, "YellowBrickWall") {
        return Some(PartId::Wall(WallType::YellowBrickWall));
    }
    if text_eq(name, "CinderBlockWall") {
        return Some(PartId::Wall(WallType::CinderBlockWall));
    }
    if text_eq(name, "GrecoRomanWall") {
        return Some(PartId::Wall(WallType::GrecoRomanWall));
    }
    if text_eq(name, "WoodenWall") {
        return Some(PartId::Wall(WallType::WoodenWall));
    }
    if text_eq(name, "LogWall") {
        return Some(PartId::Wall(WallType::LogWall));
    }
    if text_eq(name, "CautionWall") {
        return Some(PartId::Wall(WallType::CautionWall));
    }
    if text_eq(name, "SandWall") {
        return Some(PartId::Wall(WallType::SandWall));
    }
    if text_eq(name, "PipeWall") {
        return Some(PartId::Wall(WallType::PipeWall));
    }
    if text_eq(name, "CurvedPipeWall") {
        return Some(PartId::Wall(WallType::CurvedPipeWall));
    }
    if text_eq(name, "GrassFloor") {
        return Some(PartId::Wall(WallType::GrassFloor));
    }
    if text_eq(name, "ScaffoldBarrier") {
        return Some(PartId::Wall(WallType::ScaffoldBarrier));
    }
    if text_eq(name, "WoodenBarrier") {
        return Some(PartId::Wall(WallType::WoodenBarrier));
    }
    if text_eq(name, "LatticeArchway") {
        return Some(PartId::Wall(WallType::LatticeArchway));
    }
    if text_eq(name, "MarbleArchway") {
        return Some(PartId::Wall(WallType::MarbleArchway));
    }
    if text_eq(name, "BrickIncline") {
        return Some(PartId::Incline(InclineType::BrickIncline));
    }
    if text_eq(name, "YellowBrickIncline") {
        return Some(PartId::Incline(InclineType::YellowBrickIncline));
    }
    if text_eq(name, "GraniteIncline") {
        return Some(PartId::Incline(InclineType::GraniteIncline));
    }
    None
}

/// The length and the first and third characters of a name: enough to tell
/// the kind names of level files apart.
spec fn name_probe(s: Seq<char>) -> (nat, char, char) {
    (s.len(), s[0], s[2])
}

/// Every ball, wall and incline is found by its own name in a level file.
pub proof fn lemma_kind_names_resolve()
    ensures
        part_for_kind("BowlingBall"@) == Some(PartId::Ball(BallType::BowlingBall)),
        part_for_kind("Cannonball"@) == Some(PartId::Ball(BallType::Cannonball)),
        part_for_kind("Basketball"@) == Some(PartId::Ball(BallType::Basketball)),
        part_for_kind("SoccerBall"@) == Some(PartId::Ball(BallType::SoccerBall)),
        part_for_kind("Baseball"@) == Some(PartId::Ball(BallType::Baseball)),
        part_for_kind("TennisBall"@) == Some(PartId::Ball(BallType::TennisBall)),
        part_for_kind("SuperBall"@) == Some(PartId::Ball(BallType::SuperBall)),
        part_for_kind("Pinball"@) == Some(PartId::Ball(BallType::Pinball)),
        part_for_kind("PoolBall"@) == Some(PartId::Ball(BallType::PoolBall)),
        part_for_kind("ProgrammableBall"@) == Some(PartId::Ball(BallType::ProgrammableBall)),
        part_for_kind("BrickWall"@) == Some(PartId::Wall(WallType::BrickWall)),
        part_for_kind("YellowBrickWall"@) == Some(PartId::Wall(WallType::YellowBrickWall)),
        part_for_kind("CinderBlockWall"@) == Some(PartId::Wall(WallType::CinderBlockWall)),
        part_for_kind("GrecoRomanWall"@) == Some(PartId::Wall(WallType::GrecoRomanWall)),
        part_for_kind("WoodenWall"@) == Some(PartId::Wall(WallType::WoodenWall)),
        part_for_kind("LogWall"@) == Some(PartId::Wall(WallType::LogWall)),
        part_for_kind("CautionWall"@) == Some(PartId::Wall(WallType::CautionWall)),
        part_for_kind("SandWall"@) == Some(PartId::Wall(WallType::SandWall)),
        part_for_kind("PipeWall"@) == Some(PartId::Wall(WallType::PipeWall)),
        part_for_kind("CurvedPipeWall"@) == Some(PartId::Wall(WallType::CurvedPipeWall)),
        part_for_kind("GrassFloor"@) == Some(PartId::Wall(WallType::GrassFloor)),
        part_for_kind("ScaffoldBarrier"@) == Some(PartId::Wall(WallType::ScaffoldBarrier)),
        part_for_kind("WoodenBarrier"@) == Some(PartId::Wall(WallType::WoodenBarrier)),
        part_for_kind("LatticeArchway"@) == Some(PartId::Wall(WallType::LatticeArchway)),
        part_for_kind("MarbleArchway"@) == Some(PartId::Wall(WallType::MarbleArchway)),
        part_for_kind("BrickIncline"@) == Some(PartId::Incline(InclineType::BrickIncline)),
        part_for_kind("YellowBrickIncline"@) == Some(PartId::Incline(InclineType::YellowBrickIncline)),
        part_for_kind("GraniteIncline"@) == Some(PartId::Incline(InclineType::GraniteIncline)),
{
    reveal_strlit("BowlingBall");
    assert(name_probe("BowlingBall"@) == (11nat, 'B', 'w'));
    reveal_strlit("Cannonball");
    assert(name_probe("Cannonball"@) == (10nat, 'C', 'n'));
    reveal_strlit("Basketball");
    assert(name_probe("Basketball"@) == (10nat, 'B', 's'));
    reveal_strlit("SoccerBall");
    assert(name_probe("SoccerBall"@) == (10nat, 'S', 'c'));
    reveal_strlit("Baseball");
    assert(name_probe("Baseball"@) == (8nat, 'B', 's'));
    reveal_strlit("TennisBall");
    assert(name_probe("TennisBall"@) == (10nat, 'T', 'n'));
    reveal_strlit("SuperBall");
    assert(name_probe("SuperBall"@) == (9nat, 'S', 'p'));
    reveal_strlit("Pinball");
    assert(name_probe("Pinball"@) == (7nat, 'P', 'n'));
    reveal_strlit("PoolBall");
    assert(name_probe("PoolBall"@) == (8nat, 'P', 'o'));
    reveal_strlit("ProgrammableBall");
    assert(name_probe("ProgrammableBall"@) == (16nat, 'P', 'o'));
    reveal_strlit("BrickWall");
    assert(name_probe("BrickWall"@) == (9nat, 'B', 'i'));
    reveal_strlit("YellowBrickWall");
    assert(name_probe("YellowBrickWall"@) == (15nat, 'Y', 'l'));
    reveal_strlit("CinderBlockWall");
    assert(name_probe("CinderBlockWall"@) == (15nat, 'C', 'n'));
    reveal_strlit("GrecoRomanWall");
    assert(name_probe("GrecoRomanWall"@) == (14nat, 'G', 'e'));
    reveal_strlit("WoodenWall");
    assert(name_probe("WoodenWall"@) == (10nat, 'W', 'o'));
    reveal_strlit("LogWall");
    assert(name_probe("LogWall"@) == (7nat, 'L', 'g'));
    reveal_strlit("CautionWall");
    assert(name_probe("CautionWall"@) == (11nat, 'C', 'u'));
    reveal_strlit("SandWall");
    assert(name_probe("SandWall"@) == (8nat, 'S', 'n'));
    reveal_strlit("PipeWall");
    assert(name_probe("PipeWall"@) == (8nat, 'P', 'p'));
    reveal_strlit("CurvedPipeWall");
    assert(name_probe("CurvedPipeWall"@) == (14nat, 'C', 'r'));
    reveal_strlit("GrassFloor");
    assert(name_probe("GrassFloor"@) == (10nat, 'G', 'a'));
    reveal_strlit("ScaffoldBarrier");
    assert(name_probe("ScaffoldBarrier"@) == (15nat, 'S', 'a'));
    reveal_strlit("WoodenBarrier");
    assert(name_probe("WoodenBarrier"@) == (13nat, 'W', 'o'));
    reveal_strlit("LatticeArchway");
    assert(name_probe("LatticeArchway"@) == (14nat, 'L', 't'));
    reveal_strlit("MarbleArchway");
    assert(name_probe("MarbleArchway"@) == (13nat, 'M', 'r'));
    reveal_strlit("BrickIncline");
    assert(name_probe("BrickIncline"@) == (12nat, 'B', 'i'));
    reveal_strlit("YellowBrickIncline");
    assert(name_probe("YellowBrickIncline"@) == (18nat, 'Y', 'l'));
    reveal_strlit("GraniteIncline");
    assert(name_probe("GraniteIncline"@) == (14nat, 'G', 'a'));
}

/// The edge that a level file's edge name stands for; unknown names mean any edge.
pub open spec fn edge_for_name(name: Seq<char>) -> WorldEdge {
    if name == "Top"@ {
        WorldEdge::Top
    } else if name == "Bottom"@ {
        WorldEdge::Bottom
    } else if name == "Left"@ {
        WorldEdge::Left
    } else if name == "Right"@ {
        WorldEdge::Right
    } else {
        WorldEdge::Any
    }
}

pub fn resolve_edge(name: &str) -> (r: WorldEdge)
    ensures
        r == edge_for_name(name@),
{
    if text_eq(name, "Top") {
        WorldEdge::Top
    } else if text_eq(name, "Bottom") {
        WorldEdge::Bottom
    } else if text_eq(name, "Left") {
        WorldEdge::Left
    } else if text_eq(name, "Right") {
        WorldEdge::Right
    } else {
        WorldEdge::Any
    }
}

/// The edge name a win condition has when the level file gives none.
pub fn default_edge() -> (r: String)
    ensures
        r@ == "Any"@,
{
    String::from_str("Any")
}

/// A win condition whose edge is left out of the level file accepts any edge.
pub proof fn lemma_default_edge_is_any()
    ensures
        edge_for_name("Any"@) == WorldEdge::Any,
{
    reveal_strlit("Any");
    reveal_strlit("Top");
    reveal_strlit("Bottom");
    reveal_strlit("Left");
    reveal_strlit("Right");
    assert("Any"@[0] != "Top"@[0]);
    assert("Any"@.len() != "Bottom"@.len());
    assert("Any"@.len() != "Left"@.len());
    assert("Any"@.len() != "Right"@.len());
}

// ── Whole-level checks ───────────────────────────────────────────

/// Whether every kind name in `kinds` resolves to a part.
pub open spec fn all_kinds_known(kinds: Seq<String>) -> bool {
    forall|i: int| 0 <= i < kinds.len() ==> part_for_kind(#[trigger] kinds[i]@) is Some
}

/// Resolve the kind of every placed part of a level, in order; the first
/// unknown kind is reported.
pub fn resolve_part_kinds(kinds: &Vec<String>) -> (r: Result<Vec<PartId>, LevelError>)
    ensures
        match r {
            Ok(ids) => {
                &&& all_kinds_known(kinds@)
                &&& ids@.len() == kinds@.len()
                &&& forall|i: int|
                    0 <= i < kinds@.len() ==> part_for_kind(kinds@[i]@) == Some(#[trigger] ids@[i])
            },
            Err(e) => exists|i: int|
                {
                    &&& 0 <= i < kinds@.len()
                    &&& part_for_kind(#[trigger] kinds@[i]@) is None
                    &&& all_kinds_known(kinds@.take(i))
                    &&& e == LevelError::UnknownPartKind(kinds@[i])
                },
        },
{
    let mut ids: Vec<PartId> = Vec::new();
    let mut i: usize = 0;
    while i < kinds.len()
        invariant
            i <= kinds@.len(),
            ids@.len() == i,
            forall|k: int| 0 <= k < i ==> part_for_kind(kinds@[k]@) == Some(#[trigger] ids@[k]),
        decreases kinds@.len() - i,
    {
        match resolve_part_id(kinds[i].as_str()) {
            Some(p) => ids.push(p),
            None => {
                assert forall|k: int| 0 <= k < i implies part_for_kind(
                    #[trigger] kinds@.take(i as int)[k]@,
                ) is Some by {
                    assert(part_for_kind(kinds@[k]@) == Some(ids@[k]));
                }
                return Err(LevelError::UnknownPartKind(kinds[i].clone()));
            },
        }
        i = i + 1;
    }
    assert forall|k: int| 0 <= k < kinds@.len() implies part_for_kind(#[trigger] kinds@[k]@) is Some by {
        assert(part_for_kind(kinds@[k]@) == Some(ids@[k]));
    }
    Ok(ids)
}

/// Whether every bin entry names a known kind.
pub open spec fn all_bin_kinds_known(bin: Seq<BinPartDef>) -> bool {
    forall|i: int| 0 <= i < bin.len() ==> part_for_kind(#[trigger] bin[i].kind@) is Some
}

/// Build the parts bin of a level, in order; the first unknown kind is reported.
pub fn resolve_bin_parts(bin: &Vec<BinPartDef>) -> (r: Result<Vec<BinPart>, LevelError>)
    ensures
        match r {
            Ok(parts) => {
                &&& all_bin_kinds_known(bin@)
                &&& parts@.len() == bin@.len()
                &&& forall|i: int|
                    0 <= i < bin@.len() ==> Some((#[trigger] parts@[i]).part_id) == part_for_kind(
                        bin@[i].kind@,
                    ) && parts@[i].quantity == bin@[i].quantity
            },
            Err(e) => exists|i: int|
                {
                    &&& 0 <= i < bin@.len()
                    &&& part_for_kind(#[trigger] bin@[i].kind@) is None
                    &&& all_bin_kinds_known(bin@.take(i))
                    &&& e == LevelError::UnknownBinPartKind(bin@[i].kind)
                },
        },
{
    let mut parts: Vec<BinPart> = Vec::new();
    let mut i: usize = 0;
    while i < bin.len()
        invariant
            i <= bin@.len(),
            parts@.len() == i,
            forall|k: int|
                0 <= k < i ==> Some((#[trigger] parts@[k]).part_id) == part_for_kind(bin@[k].kind@)
                    && parts@[k].quantity == bin@[k].quantity,
        decreases bin@.len() - i,
    {
        match resolve_part_id(bin[i].kind.as_str()) {
            Some(p) => parts.push(BinPart { part_id: p, quantity: bin[i].quantity }),
            None => {
                assert forall|k: int| 0 <= k < i implies part_for_kind(
                    #[trigger] bin@.take(i as int)[k].kind@,
                ) is Some by {
                    assert(Some(parts@[k].part_id) == part_for_kind(bin@[k].kind@));
                }
                return Err(LevelError::UnknownBinPartKind(bin[i].kind.clone()));
            },
        }
        i = i + 1;
    }
    assert forall|k: int| 0 <= k < bin@.len() implies part_for_kind(#[trigger] bin@[k].kind@) is Some by {
        assert(Some(parts@[k].part_id) == part_for_kind(bin@[k].kind@));
    }
    Ok(parts)
}

/// The instance that the last part carrying `label` became, if any part carries it.
pub open spec fn labelled_instance(labels: Seq<(String, InstanceId)>, label: Seq<char>) -> Option<
    InstanceId,
>
    decreases labels.len(),
{
    if labels.len() == 0 {
        None
    } else if labels.last().0@ == label {
        Some(labels.last().1)
    } else {
        labelled_instance(labels.drop_last(), label)
    }
}

/// Look up the instance of a label, as win conditions reference it. A label
/// given to several parts refers to the last of them.
pub fn lookup_label(labels: &Vec<(String, InstanceId)>, label: &str) -> (r: Result<
    InstanceId,
    LevelError,
>)
    ensures
        match labelled_instance(labels@, label@) {
            Some(id) => r == Ok::<InstanceId, LevelError>(id),
            None => r matches Err(LevelError::UnknownLabel(s)) && s@ == label@,
        },
{
    let mut i: usize = labels.len();
    assert(labels@.take(i as int) =~= labels@);
    while i > 0
        invariant
            i <= labels@.len(),
            labelled_instance(labels@, label@) == labelled_instance(labels@.take(i as int), label@),
        decreases i,
    {
        assert(labels@.take(i as int).drop_last() =~= labels@.take(i - 1));
        if text_eq(labels[i - 1].0.as_str(), label) {
            return Ok(labels[i - 1].1);
        }
        i = i - 1;
    }
    assert(labels@.take(0) =~= Seq::<(String, InstanceId)>::empty());
    Err(LevelError::UnknownLabel(String::from_str(label)))
}

/// The position of the last placed part that carries `label`, if any does.
pub open spec fn labelled_part(labels: Seq<Option<String>>, label: Seq<char>) -> Option<int>
    decreases labels.len(),
{
    if labels.len() == 0 {
        None
    } else if labels.last() is Some && labels.last()->0@ == label {
        Some(labels.len() - 1)
    } else {
        labelled_part(labels.drop_last(), label)
    }
}

/// The position of the last placed part that carries `label`.
fn label_position(labels: &Vec<Option<String>>, label: &str) -> (r: Option<usize>)
    ensures
        r matches Some(i) ==> labelled_part(labels@, label@) == Some(i as int),
        r is None ==> labelled_part(labels@, label@) is None,
{
    let mut i: usize = labels.len();
    assert(labels@.take(i as int) =~= labels@);
    while i > 0
        invariant
            i <= labels@.len(),
            labelled_part(labels@, label@) == labelled_part(labels@.take(i as int), label@),
        decreases i,
    {
        assert(labels@.take(i as int).drop_last() =~= labels@.take(i - 1));
        if let Some(l) = &labels[i - 1] {
            if text_eq(l.as_str(), label) {
                return Some(i - 1);
            }
        }
        i = i - 1;
    }
    assert(labels@.take(0) =~= Seq::<Option<String>>::empty());
    None
}

/// Whether every label in `conditions` is carried by some placed part.
pub open spec fn all_labels_known(labels: Seq<Option<String>>, conditions: Seq<String>) -> bool {
    forall|i: int| 0 <= i < conditions.len() ==> labelled_part(labels, #[trigger] conditions[i]@) is Some
}

/// A level whose names all resolved: the part of each placed part, for each
/// win condition the position of the placed part it refers to, and the bin.
pub struct ResolvedLevel {
    pub parts: Vec<PartId>,
    pub targets: Vec<usize>,
    pub bin: Vec<BinPart>,
}

/// Resolve every name a level uses, in the order a level is built: the
/// placed parts' kinds, then the labels the win conditions refer to, then the
/// bin's kinds. The first name that does not resolve is the error.
pub fn resolve_level(
    kinds: &Vec<String>,
    part_labels: &Vec<Option<String>>,
    condition_labels: &Vec<String>,
    bin: &Vec<BinPartDef>,
) -> (r: Result<ResolvedLevel, LevelError>)
    ensures
        match r {
            Ok(level) => {
                &&& all_kinds_known(kinds@)
                &&& all_labels_known(part_labels@, condition_labels@)
                &&& all_bin_kinds_known(bin@)
                &&& level.parts@.len() == kinds@.len()
                &&& forall|i: int|
                    0 <= i < kinds@.len() ==> part_for_kind(kinds@[i]@) == Some(
                        #[trigger] level.parts@[i],
                    )
                &&& level.targets@.len() == condition_labels@.len()
                &&& forall|i: int|
                    0 <= i < condition_labels@.len() ==> labelled_part(
                        part_labels@,
                        condition_labels@[i]@,
                    ) == Some(#[trigger] level.targets@[i] as int)
                &&& level.bin@.len() == bin@.len()
                &&& forall|i: int|
                    0 <= i < bin@.len() ==> Some((#[trigger] level.bin@[i]).part_id)
                        == part_for_kind(bin@[i].kind@) && level.bin@[i].quantity
                        == bin@[i].quantity
            },
            Err(LevelError::UnknownPartKind(k)) => exists|i: int|
                {
                    &&& 0 <= i < kinds@.len()
                    &&& part_for_kind(#[trigger] kinds@[i]@) is None
                    &&& all_kinds_known(kinds@.take(i))
                    &&& k == kinds@[i]
                },
            Err(LevelError::UnknownLabel(l)) => {
                &&& all_kinds_known(kinds@)
                &&& exists|i: int|
                    {
                        &&& 0 <= i < condition_labels@.len()
                        &&& labelled_part(part_labels@, #[trigger] condition_labels@[i]@) is None
                        &&& all_labels_known(part_labels@, condition_labels@.take(i))
                        &&& l == condition_labels@[i]
                    }
            },
            Err(LevelError::UnknownBinPartKind(k)) => {
                &&& all_kinds_known(kinds@)
                &&& all_labels_known(part_labels@, condition_labels@)
                &&& exists|i: int|
                    {
                        &&& 0 <= i < bin@.len()
                        &&& part_for_kind(#[trigger] bin@[i].kind@) is None
                        &&& all_bin_kinds_known(bin@.take(i))
                        &&& k == bin@[i].kind
                    }
            },
        },
{
    let parts = match resolve_part_kinds(kinds) {
        Ok(p) => p,
        Err(e) => return Err(e),
    };
    let mut targets: Vec<usize> = Vec::new();
    let mut i: usize = 0;
    while i < condition_labels.len()
        invariant
            all_kinds_known(kinds@),
            i <= condition_labels@.len(),
            targets@.len() == i,
            forall|k: int|
                0 <= k < i ==> labelled_part(part_labels@, condition_labels@[k]@) == Some(
                    #[trigger] targets@[k] as int,
                ),
        decreases condition_labels@.len() - i,
    {
        match label_position(part_labels, condition_labels[i].as_str()) {
            Some(t) => targets.push(t),
            None => {
                assert forall|k: int| 0 <= k < i implies labelled_part(
                    part_labels@,
                    #[trigger] condition_labels@.take(i as int)[k]@,
                ) is Some by {
                    assert(labelled_part(part_labels@, condition_labels@[k]@) == Some(
                        targets@[k] as int,
                    ));
                }
                assert(labelled_part(part_labels@, condition_labels@[i as int]@) is None);
                assert(all_labels_known(part_labels@, condition_labels@.take(i as int)));
                return Err(LevelError::UnknownLabel(condition_labels[i].clone()));
            },
        }
        i = i + 1;
    }
    assert forall|k: int| 0 <= k < condition_labels@.len() implies labelled_part(
        part_labels@,
        #[trigger] condition_labels@[k]@,
    ) is Some by {
        assert(labelled_part(part_labels@, condition_labels@[k]@) == Some(targets@[k] as int));
    }
    let bin_parts = match resolve_bin_parts(bin) {
        Ok(b) => b,
        Err(e) => return Err(e),
    };
    Ok(ResolvedLevel { parts, targets, bin: bin_parts })
}

/// Each edge name of a level file names its own edge.
pub proof fn lemma_edge_names_resolve()
    ensures
        edge_for_name("Top"@) == WorldEdge::Top,
        edge_for_name("Bottom"@) == WorldEdge::Bottom,
        edge_for_name("Left"@) == WorldEdge::Left,
        edge_for_name("Right"@) == WorldEdge::Right,
        edge_for_name("Any"@) == WorldEdge::Any,
{
    reveal_strlit("Top");
    reveal_strlit("Bottom");
    reveal_strlit("Left");
    reveal_strlit("Right");
    reveal_strlit("Any");
    assert("Bottom"@.len() == 6 && "Left"@.len() == 4 && "Right"@.len() == 5);
    assert("Top"@[0] == 'T' && "Any"@[0] == 'A');
}

} // verus!
