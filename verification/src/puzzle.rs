//! Puzzle bookkeeping that does not depend on positions: instance ids, the
//! parts bin of a puzzle, world edges, the puzzle's status, and how decided
//! win conditions combine into it.
use vstd::prelude::*;

use crate::parts::PartId;

verus! {

/// A unique identifier for a placed part instance in the world.
#[derive(Debug, Clone, Copy, PartialEq, Eq, Hash, Structural)]
pub struct InstanceId(pub u32);

/// A part available in the player's parts bin.
#[derive(Debug, Clone, Copy, PartialEq, Eq, Structural)]
pub struct BinPart {
    pub part_id: PartId,
    pub quantity: u32,
}

/// Which edge an object exited from.
#[derive(Debug, Clone, Copy, PartialEq, Eq, Structural)]
pub enum WorldEdge {
    Top,
    Bottom,
    Left,
    Right,
    Any,
}

/// Result of evaluating win conditions.
#[derive(Debug, Clone, Copy, PartialEq, Eq, Structural)]
pub enum PuzzleStatus {
    /// Simulation not started or in progress.
    Playing,
    /// All win conditions met.
    Won,
}

/// A win condition whose individual tests (positions, exits, states) are
/// already decided, combined with "all of" and "any of".
pub enum Condition {
    /// A single test and whether it passed.
    Holds(bool),
    /// All conditions must be met.
    AllOf(Vec<Condition>),
    /// Any condition must be met.
    AnyOf(Vec<Condition>),
}

/// Whether a condition is met.
pub open spec fn condition_met(c: Condition) -> bool
    decreases c,
{
    match c {
        Condition::Holds(b) => b,
        Condition::AllOf(v) => all_met(v@),
        Condition::AnyOf(v) => any_met(v@),
    }
}

/// Whether every condition in `s` is met.
pub open spec fn all_met(s: Seq<Condition>) -> bool
    decreases s,
{
    if s.len() == 0 {
        true
    } else {
        all_met(s.subrange(0, s.len() - 1)) && condition_met(s[s.len() - 1])
    }
}

/// Whether some condition in `s` is met.
pub open spec fn any_met(s: Seq<Condition>) -> bool
    decreases s,
{
    if s.len() == 0 {
        false
    } else {
        any_met(s.subrange(0, s.len() - 1)) || condition_met(s[s.len() - 1])
    }
}

/// The puzzle's status for its list of win conditions: won when there is
/// at least one and all are met.
pub open spec fn status_for(conditions: Seq<Condition>) -> PuzzleStatus {
    if conditions.len() > 0 && all_met(conditions) {
        PuzzleStatus::Won
    } else {
        PuzzleStatus::Playing
    }
}

/// Whether a condition is met.
pub fn is_met(c: &Condition) -> (r: bool)
    ensures
        r == condition_met(*c),
    decreases c,
{
    match c {
        Condition::Holds(b) => *b,
        Condition::AllOf(v) => all_are_met(v),
        Condition::AnyOf(v) => any_is_met(v),
    }
}

/// Whether every condition in `v` is met.
fn all_are_met(v: &Vec<Condition>) -> (r: bool)
    ensures
        r == all_met(v@),
    decreases v,
{
    let mut i: usize = 0;
    while i < v.len()
        invariant
            i <= v@.len(),
            all_met(v@.subrange(0, i as int)),
        decreases v@.len() - i,
    {
        assert(v@.subrange(0, i + 1).subrange(0, i as int) =~= v@.subrange(0, i as int));
        if !is_met(&v[i]) {
            proof {
                assert(v@.subrange(0, i + 1)[i as int] == v@[i as int]);
                assert(v@.subrange(0, v@.len() as int) =~= v@);
                if all_met(v@) {
                    lemma_all_met_prefix(v@, i + 1, v@.len() as int);
                }
            }
            return false;
        }
        i = i + 1;
    }
    assert(v@.subrange(0, v@.len() as int) =~= v@);
    true
}

/// Whether some condition in `v` is met.
fn any_is_met(v: &Vec<Condition>) -> (r: bool)
    ensures
        r == any_met(v@),
    decreases v,
{
    let mut i: usize = 0;
    while i < v.len()
        invariant
            i <= v@.len(),
            !any_met(v@.subrange(0, i as int)),
        decreases v@.len() - i,
    {
        assert(v@.subrange(0, i + 1).subrange(0, i as int) =~= v@.subrange(0, i as int));
        if is_met(&v[i]) {
            proof {
                assert(v@.subrange(0, i + 1)[i as int] == v@[i as int]);
                assert(any_met(v@.subrange(0, i + 1)));
                lemma_any_met_prefix(v@, i + 1, v@.len() as int);
                assert(v@.subrange(0, v@.len() as int) =~= v@);
            }
            return true;
        }
        i = i + 1;
    }
    assert(v@.subrange(0, v@.len() as int) =~= v@);
    false
}

/// A longer prefix is all met only if a shorter one is.
proof fn lemma_all_met_prefix(s: Seq<Condition>, j: int, k: int)
    requires
        0 <= j <= k <= s.len(),
        all_met(s.subrange(0, k)),
    ensures
        all_met(s.subrange(0, j)),
    decreases k - j,
{
    if j < k {
        assert(s.subrange(0, k).subrange(0, k - 1) =~= s.subrange(0, k - 1));
        lemma_all_met_prefix(s, j, k - 1);
    }
}

/// A shorter prefix with a met condition makes a longer prefix have one.
proof fn lemma_any_met_prefix(s: Seq<Condition>, j: int, k: int)
    requires
        0 <= j <= k <= s.len(),
        any_met(s.subrange(0, j)),
    ensures
        any_met(s.subrange(0, k)),
    decreases k - j,
{
    if j < k {
        lemma_any_met_prefix(s, j, k - 1);
        assert(s.subrange(0, k).subrange(0, k - 1) =~= s.subrange(0, k - 1));
    }
}

/// Evaluate a puzzle's win conditions: an empty list is never won.
pub fn evaluate(conditions: &Vec<Condition>) -> (r: PuzzleStatus)
    ensures
        r == status_for(conditions@),
{
    if conditions.len() == 0 {
        return PuzzleStatus::Playing;
    }
    if all_are_met(conditions) {
        PuzzleStatus::Won
    } else {
        PuzzleStatus::Playing
    }
}

/// `all_met` holds exactly when every condition of the list is met.
proof fn lemma_all_met_elementwise(s: Seq<Condition>)
    ensures
        all_met(s) <==> forall|i: int| 0 <= i < s.len() ==> condition_met(#[trigger] s[i]),
    decreases s.len(),
{
    if s.len() > 0 {
        let t = s.subrange(0, s.len() - 1);
        lemma_all_met_elementwise(t);
        assert forall|i: int| 0 <= i < t.len() implies t[i] == s[i] by {}
        if forall|i: int| 0 <= i < s.len() ==> condition_met(#[trigger] s[i]) {
            assert forall|i: int| 0 <= i < t.len() implies condition_met(#[trigger] t[i]) by {
                assert(t[i] == s[i]);
            }
        }
        if all_met(s) {
            assert forall|i: int| 0 <= i < s.len() implies condition_met(#[trigger] s[i]) by {
                if i < s.len() - 1 {
                    assert(t[i] == s[i]);
                }
            }
        }
    }
}

/// `any_met` holds exactly when some condition of the list is met.
proof fn lemma_any_met_elementwise(s: Seq<Condition>)
    ensures
        any_met(s) <==> exists|i: int| 0 <= i < s.len() && condition_met(#[trigger] s[i]),
    decreases s.len(),
{
    if s.len() > 0 {
        let t = s.subrange(0, s.len() - 1);
        lemma_any_met_elementwise(t);
        if any_met(t) {
            let i = choose|i: int| 0 <= i < t.len() && condition_met(#[trigger] t[i]);
            assert(t[i] == s[i]);
        }
        if exists|i: int| 0 <= i < s.len() && condition_met(#[trigger] s[i]) {
            let i = choose|i: int| 0 <= i < s.len() && condition_met(#[trigger] s[i]);
            if i < s.len() - 1 {
                assert(t[i] == s[i]);
            }
        }
    }
}

/// What the conditions mean: a decided test is met exactly when it passed,
/// "all of" exactly when every part is met (so an empty one is), and
/// "any of" exactly when some part is met (so an empty one never is).
pub proof fn lemma_conditions_mean(c: Condition)
    ensures
        c matches Condition::Holds(b) ==> (condition_met(c) <==> b),
        c matches Condition::AllOf(v) ==> (condition_met(c) <==> forall|i: int|
            0 <= i < v@.len() ==> condition_met(#[trigger] v@[i])),
        c matches Condition::AnyOf(v) ==> (condition_met(c) <==> exists|i: int|
            0 <= i < v@.len() && condition_met(#[trigger] v@[i])),
{
    match c {
        Condition::Holds(_) => {},
        Condition::AllOf(v) => lemma_all_met_elementwise(v@),
        Condition::AnyOf(v) => lemma_any_met_elementwise(v@),
    }
}

/// A puzzle is won exactly when it has win conditions and every one of them
/// is met; a single unmet condition anywhere in the list keeps it playing.
pub proof fn lemma_won_iff_every_condition_met(conditions: Seq<Condition>)
    ensures
        status_for(conditions) == PuzzleStatus::Won <==> (conditions.len() > 0 && forall|i: int|
            0 <= i < conditions.len() ==> condition_met(#[trigger] conditions[i])),
        status_for(conditions) == PuzzleStatus::Won || status_for(conditions)
            == PuzzleStatus::Playing,
{
    lemma_all_met_elementwise(conditions);
}

} // verus!
