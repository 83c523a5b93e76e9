//! Lifecycle states and the single path that joins them.

use vstd::prelude::*;

verus! {

/// Lifecycle state of a stage or of the whole graph.
#[derive(Clone, Copy, Debug, PartialEq, Eq, Structural)]
pub enum PipelineState {
    Null,
    Ready,
    Paused,
    Playing,
}

impl PipelineState {
    /// Position of the state on the path from `Null` to `Playing`.
    pub open spec fn rank(self) -> int {
        match self {
            PipelineState::Null => 0,
            PipelineState::Ready => 1,
            PipelineState::Paused => 2,
            PipelineState::Playing => 3,
        }
    }

    /// The state at a given position; positions outside `0..=3` clamp.
    pub open spec fn at_rank(r: int) -> PipelineState {
        if r <= 0 {
            PipelineState::Null
        } else if r == 1 {
            PipelineState::Ready
        } else if r == 2 {
            PipelineState::Paused
        } else {
            PipelineState::Playing
        }
    }

    /// Two states are adjacent when one step on the path separates them.
    pub open spec fn adjacent(self, other: PipelineState) -> bool {
        self.rank() - other.rank() == 1 || other.rank() - self.rank() == 1
    }

    /// The state one step from `self` in the direction of `target`, or `self`
    /// when the target is already reached.
    pub open spec fn toward(self, target: PipelineState) -> PipelineState {
        if self.rank() < target.rank() {
            PipelineState::at_rank(self.rank() + 1)
        } else if self.rank() > target.rank() {
            PipelineState::at_rank(self.rank() - 1)
        } else {
            self
        }
    }

    /// Whether a stage in state `self` has confirmed the step to `mark`: on
    /// the way up the states at or above the mark have, on the way down
    /// those at or below it.
    pub open spec fn has_reached(self, mark: PipelineState, upward: bool) -> bool {
        if upward {
            self.rank() >= mark.rank()
        } else {
            self.rank() <= mark.rank()
        }
    }

    /// The states visited when stepping from `self` to `target`, both ends
    /// counted.
    pub open spec fn path_to(self, target: PipelineState) -> Seq<PipelineState>
        decreases
            if self.rank() < target.rank() {
                target.rank() - self.rank()
            } else {
                self.rank() - target.rank()
            },
    {
        if self == target {
            seq![self]
        } else {
            seq![self] + self.toward(target).path_to(target)
        }
    }

    /// Number of the state on the path, `Null` being 0.
    pub fn rank_of(self) -> (r: u8)
        ensures
            r == self.rank(),
    {
        match self {
            PipelineState::Null => 0,
            PipelineState::Ready => 1,
            PipelineState::Paused => 2,
            PipelineState::Playing => 3,
        }
    }

    /// Executable form of [`PipelineState::adjacent`].
    pub fn is_adjacent(self, other: PipelineState) -> (r: bool)
        ensures
            r == self.adjacent(other),
    {
        let a: u8 = self.rank_of();
        let b: u8 = other.rank_of();
        (a > b && a - b == 1) || (b > a && b - a == 1)
    }

    /// Executable form of [`PipelineState::toward`].
    pub fn step_toward(self, target: PipelineState) -> (next: PipelineState)
        ensures
            next == self.toward(target),
            self == target ==> next == self,
            self != target ==> self.adjacent(next),
    {
        let a: u8 = self.rank_of();
        let b: u8 = target.rank_of();
        if a < b {
            match self {
                PipelineState::Null => PipelineState::Ready,
                PipelineState::Ready => PipelineState::Paused,
                _ => PipelineState::Playing,
            }
        } else if a > b {
            match self {
                PipelineState::Playing => PipelineState::Paused,
                PipelineState::Paused => PipelineState::Ready,
                _ => PipelineState::Null,
            }
        } else {
            self
        }
    }

    /// The name of the state as it appears in log lines.
    pub fn name(self) -> (s: &'static str)
        ensures
            s@ == state_name(Some(self)),
    {
        match self {
            PipelineState::Null => "Null",
            PipelineState::Ready => "Ready",
            PipelineState::Paused => "Paused",
            PipelineState::Playing => "Playing",
        }
    }
}

/// Text of a state in log lines. A pending state that is absent is shown as
/// `VoidPending`.
pub open spec fn state_name(state: Option<PipelineState>) -> Seq<char> {
    match state {
        None => "VoidPending"@,
        Some(PipelineState::Null) => "Null"@,
        Some(PipelineState::Ready) => "Ready"@,
        Some(PipelineState::Paused) => "Paused"@,
        Some(PipelineState::Playing) => "Playing"@,
    }
}

/// Name of an optional pending state.
pub fn pending_name(pending: Option<PipelineState>) -> (s: &'static str)
    ensures
        s@ == state_name(pending),
{
    match pending {
        None => "VoidPending",
        Some(state) => state.name(),
    }
}

/// Every two neighbours on a path between two states are adjacent, and the
/// path starts and ends where it was asked to.
pub proof fn law_path_steps_are_adjacent(from: PipelineState, to: PipelineState)
    ensures
        from.path_to(to).len() == 1 + (if from.rank() < to.rank() {
            to.rank() - from.rank()
        } else {
            from.rank() - to.rank()
        }),
        from.path_to(to)[0] == from,
        from.path_to(to).last() == to,
        forall|i: int|
            0 <= i < from.path_to(to).len() - 1 ==> (#[trigger] from.path_to(to)[i]).adjacent(
                from.path_to(to)[i + 1],
            ),
    decreases
        if from.rank() < to.rank() {
            to.rank() - from.rank()
        } else {
            from.rank() - to.rank()
        },
{
    if from != to {
        let next = from.toward(to);
        law_path_steps_are_adjacent(next, to);
        let rest = next.path_to(to);
        let whole = from.path_to(to);
        assert(whole == seq![from] + rest);
        assert forall|i: int| 0 <= i < whole.len() - 1 implies (#[trigger] whole[i]).adjacent(
            whole[i + 1],
        ) by {
            if i == 0 {
                assert(whole[1] == rest[0]);
            } else {
                assert(whole[i] == rest[i - 1]);
                assert(whole[i + 1] == rest[i]);
            }
        }
    }
}

/// Startup walks `Null`, `Ready`, `Paused`, `Playing`; teardown walks the
/// same states backwards.
pub proof fn law_startup_and_teardown_paths()
    ensures
        PipelineState::Null.path_to(PipelineState::Playing) == seq![
            PipelineState::Null,
            PipelineState::Ready,
            PipelineState::Paused,
            PipelineState::Playing,
        ],
        PipelineState::Playing.path_to(PipelineState::Null) == seq![
            PipelineState::Playing,
            PipelineState::Paused,
            PipelineState::Ready,
            PipelineState::Null,
        ],
{
    reveal_with_fuel(PipelineState::path_to, 5);
    assert(PipelineState::Null.path_to(PipelineState::Playing) =~= seq![
        PipelineState::Null,
        PipelineState::Ready,
        PipelineState::Paused,
        PipelineState::Playing,
    ]);
    assert(PipelineState::Playing.path_to(PipelineState::Null) =~= seq![
        PipelineState::Playing,
        PipelineState::Paused,
        PipelineState::Ready,
        PipelineState::Null,
    ]);
}

} // verus!
