//! How the graph tracks lifecycle states: one target for all stages, one
//! confirmed state for each of them, and the aggregate state that follows.

use vstd::prelude::*;
use crate::model::{GraphModel, StageModel};
use crate::state::PipelineState;

verus! {

/// Something that bears on the lifecycle of a graph.
pub enum LifecycleEvent {
    /// All stages were commanded to a target state.
    Command { target: PipelineState },
    /// A stage confirmed that it went from `from` to `to`.
    Changed { stage: int, from: PipelineState, to: PipelineState },
}

impl GraphModel {
    /// The graph after all its stages were commanded to `target`. The
    /// command alone moves nothing: states change when stages confirm.
    pub open spec fn commanded(self, target: PipelineState) -> GraphModel {
        GraphModel { target: target, ..self }
    }

    /// A confirmation is taken when the stage exists, was known to be in
    /// `from`, and `to` is one step away from it.
    pub open spec fn accepts_change(
        self,
        stage: int,
        from: PipelineState,
        to: PipelineState,
    ) -> bool {
        self.has_stage(stage) && self.stages[stage].state == from && from.adjacent(to)
    }

    /// Whether every stage has come as far as `mark`.
    pub open spec fn all_reached(self, mark: PipelineState, upward: bool) -> bool {
        forall|i: int|
            0 <= i < self.stages.len() ==> (#[trigger] self.stages[i]).state.has_reached(
                mark,
                upward,
            )
    }

    /// The aggregate state once the stages are looked at again: one step
    /// closer to the target when every stage has confirmed that step, the
    /// same as before otherwise.
    pub open spec fn settled_current(self) -> PipelineState {
        let mark = self.current.toward(self.target);
        if self.current != self.target && self.all_reached(
            mark,
            self.current.rank() < self.target.rank(),
        ) {
            mark
        } else {
            self.current
        }
    }

    /// The graph with the state of one stage replaced.
    pub open spec fn with_state(self, stage: int, state: PipelineState) -> GraphModel {
        GraphModel {
            stages: self.stages.update(
                stage,
                StageModel { state: state, ..self.stages[stage] },
            ),
            ..self
        }
    }

    /// The graph after a stage reported a change of state: a confirmation
    /// that is taken is recorded and the aggregate looked at again; any
    /// other report changes nothing.
    pub open spec fn after_change(
        self,
        stage: int,
        from: PipelineState,
        to: PipelineState,
    ) -> GraphModel {
        if self.accepts_change(stage, from, to) {
            let recorded = self.with_state(stage, to);
            GraphModel { current: recorded.settled_current(), ..recorded }
        } else {
            self
        }
    }

    /// The graph after one lifecycle event.
    pub open spec fn after_event(self, event: LifecycleEvent) -> GraphModel {
        match event {
            LifecycleEvent::Command { target } => self.commanded(target),
            LifecycleEvent::Changed { stage, from, to } => self.after_change(stage, from, to),
        }
    }

    /// The graph after a series of lifecycle events, taken in order.
    pub open spec fn after_events(self, events: Seq<LifecycleEvent>) -> GraphModel
        decreases events.len(),
    {
        if events.len() == 0 {
            self
        } else {
            self.after_events(events.drop_last()).after_event(events.last())
        }
    }
}

/// A report of a state change moves the aggregate state by one step towards
/// the commanded target or not at all, keeps the target, and keeps the
/// graph's invariant.
pub proof fn lemma_change_moves_one_step(
    g: GraphModel,
    stage: int,
    from: PipelineState,
    to: PipelineState,
)
    ensures
        g.after_change(stage, from, to).target == g.target,
        g.after_change(stage, from, to).ports == g.ports,
        g.after_change(stage, from, to).stages.len() == g.stages.len(),
        g.after_change(stage, from, to).current == g.current || {
            &&& g.current != g.target
            &&& g.after_change(stage, from, to).current == g.current.toward(g.target)
            &&& g.current.adjacent(g.after_change(stage, from, to).current)
        },
        g.wf() ==> g.after_change(stage, from, to).wf(),
{
    let h = g.after_change(stage, from, to);
    if g.wf() && g.accepts_change(stage, from, to) {
        assert forall|p: int| 0 <= p < h.ports.len() implies #[trigger] h.link_is_mutual(p) by {
            assert(g.link_is_mutual(p));
        }
        assert forall|i: int, j: int| 0 <= i < j < h.stages.len() implies (
        #[trigger] h.stages[i]).name != (#[trigger] h.stages[j]).name by {
            assert(h.stages[i].name == g.stages[i].name);
            assert(h.stages[j].name == g.stages[j].name);
        }
    }
}

/// The aggregate state never skips a state: over any series of commands
/// and reports, each event leaves the aggregate where it was or moves it to
/// the neighbouring state on the way to the target commanded last. So a
/// start walks `Null`, `Ready`, `Paused`, `Playing`, and a teardown walks
/// the same states backwards.
pub proof fn law_aggregate_never_skips_a_state(g: GraphModel, events: Seq<LifecycleEvent>, k: int)
    requires
        0 <= k < events.len(),
    ensures
        ({
            let before = g.after_events(events.take(k));
            let after = g.after_events(events.take(k + 1));
            &&& after.current == before.current || {
                &&& before.current != before.target
                &&& after.current == before.current.toward(before.target)
                &&& before.current.adjacent(after.current)
            }
            &&& before.target == PipelineState::Playing ==> after.current.rank()
                == before.current.rank() || after.current.rank() == before.current.rank() + 1
            &&& before.target == PipelineState::Null ==> after.current.rank()
                == before.current.rank() || after.current.rank() == before.current.rank() - 1
        }),
{
    let upto = events.take(k + 1);
    assert(upto.drop_last() =~= events.take(k));
    assert(upto.last() == events[k]);
    let before = g.after_events(events.take(k));
    match events[k] {
        LifecycleEvent::Command { target } => {},
        LifecycleEvent::Changed { stage, from, to } => {
            lemma_change_moves_one_step(before, stage, from, to);
        },
    }
}

} // verus!
