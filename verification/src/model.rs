//! The mathematical model of the graph: what a graph is, when it is in
//! order, and what each operation makes of it.

use vstd::prelude::*;
use crate::caps::CapabilityModel;
use crate::error::PipelineError;
use crate::graph::{Direction, Discovery, LinkError};
use crate::state::PipelineState;

verus! {

/// Name under which the source stage is registered.
pub open spec fn source_name() -> Seq<char> {
    "src_element"@
}

/// Name under which the decode stage is registered.
pub open spec fn decode_name() -> Seq<char> {
    "decode_element"@
}

/// Name under which the sink stage is registered.
pub open spec fn sink_name() -> Seq<char> {
    "appsink_element"@
}

/// Mathematical value of a [`crate::graph::StageKind`].
pub enum StageKindModel {
    Source { location: Seq<char> },
    Decode,
    Sink { notify_buffers: bool, synchronized: bool },
}

/// Mathematical value of a [`crate::graph::Stage`].
pub struct StageModel {
    pub name: Seq<char>,
    pub kind: StageKindModel,
    pub state: PipelineState,
}

/// Mathematical value of a [`crate::graph::PortCaps`].
pub enum PortCapsModel {
    Any,
    AnyVideo,
    Fixed(CapabilityModel),
}

/// Mathematical value of a [`crate::graph::Port`].
pub struct PortModel {
    pub stage: int,
    pub direction: Direction,
    pub caps: PortCapsModel,
    pub peer: Option<int>,
}

/// Mathematical value of a [`crate::graph::Graph`].
pub struct GraphModel {
    pub stages: Seq<StageModel>,
    pub ports: Seq<PortModel>,
    /// The state that all stages were last commanded to.
    pub target: PipelineState,
    /// The aggregate state of the graph.
    pub current: PipelineState,
}

impl PortCapsModel {
    /// Whether the media category is video.
    pub open spec fn is_video(self) -> bool {
        match self {
            PortCapsModel::Any => false,
            PortCapsModel::AnyVideo => true,
            PortCapsModel::Fixed(c) => c.is_video(),
        }
    }

    /// Whether data of `self` can flow into a connection point of `other`.
    pub open spec fn fits(self, other: PortCapsModel) -> bool {
        match (self, other) {
            (PortCapsModel::Any, _) => true,
            (_, PortCapsModel::Any) => true,
            (PortCapsModel::AnyVideo, PortCapsModel::AnyVideo) => true,
            (PortCapsModel::AnyVideo, PortCapsModel::Fixed(c)) => c.is_video(),
            (PortCapsModel::Fixed(c), PortCapsModel::AnyVideo) => c.is_video(),
            (PortCapsModel::Fixed(a), PortCapsModel::Fixed(b)) => a.media_type == b.media_type,
        }
    }
}

impl GraphModel {
    /// Whether `p` names a connection point.
    pub open spec fn has_port(self, p: int) -> bool {
        0 <= p < self.ports.len()
    }

    /// Whether `s` names a stage.
    pub open spec fn has_stage(self, s: int) -> bool {
        0 <= s < self.stages.len()
    }

    /// Whether some stage bears `name`.
    pub open spec fn has_stage_named(self, name: Seq<char>) -> bool {
        exists|i: int| 0 <= i < self.stages.len() && (#[trigger] self.stages[i]).name == name
    }

    /// Position of the stage that bears `name`, meaningful when there is
    /// one.
    pub open spec fn index_of_stage(self, name: Seq<char>) -> int {
        choose|i: int| 0 <= i < self.stages.len() && (#[trigger] self.stages[i]).name == name
    }

    /// In a graph that meets its invariant a name belongs to one stage only.
    pub proof fn lemma_index_of_stage(self, name: Seq<char>, i: int)
        requires
            self.wf(),
            self.has_stage(i),
            self.stages[i].name == name,
        ensures
            self.has_stage_named(name),
            self.index_of_stage(name) == i,
    {
        let j = self.index_of_stage(name);
        assert(0 <= j < self.stages.len() && self.stages[j].name == name);
        if j < i {
            assert(self.stages[j].name != self.stages[i].name);
        } else if i < j {
            assert(self.stages[i].name != self.stages[j].name);
        }
    }

    /// A connection point without a peer is in order. One with a peer is in
    /// order when the peer exists, names it in return, faces the other way
    /// and belongs to another stage.
    pub open spec fn link_is_mutual(self, p: int) -> bool {
        match self.ports[p].peer {
            None => true,
            Some(q) => {
                &&& 0 <= q < self.ports.len()
                &&& self.ports[q].peer == Some(p)
                &&& self.ports[q].direction != self.ports[p].direction
                &&& self.ports[q].stage != self.ports[p].stage
            },
        }
    }

    /// The invariant of a graph: every connection point belongs to a stage,
    /// links are mutual and join an output to an input of another stage, and
    /// no two stages share a name.
    pub open spec fn wf(self) -> bool {
        &&& forall|p: int|
            0 <= p < self.ports.len() ==> 0 <= (#[trigger] self.ports[p]).stage < self.stages.len()
        &&& forall|p: int| 0 <= p < self.ports.len() ==> #[trigger] self.link_is_mutual(p)
        &&& forall|i: int, j: int|
            0 <= i < j < self.stages.len() ==> (#[trigger] self.stages[i]).name != (
            #[trigger] self.stages[j]).name
    }

    /// The graph with one more stage at the end of the arena.
    pub open spec fn with_stage(self, stage: StageModel) -> GraphModel {
        GraphModel { stages: self.stages.push(stage), ..self }
    }

    /// The graph with one more connection point at the end of the arena.
    pub open spec fn with_port(self, port: PortModel) -> GraphModel {
        GraphModel { ports: self.ports.push(port), ..self }
    }

    /// Why `src` cannot be linked to `dst`, or `None` when it can. The
    /// reasons are tried in the order of [`LinkError`]'s variants.
    pub open spec fn link_refusal(self, src: int, dst: int) -> Option<LinkError> {
        if !self.has_port(src) || !self.has_port(dst) {
            Some(LinkError::UnknownPort)
        } else if self.ports[src].direction != Direction::Output || self.ports[dst].direction
            != Direction::Input {
            Some(LinkError::WrongDirection)
        } else if self.ports[src].stage == self.ports[dst].stage {
            Some(LinkError::SameStage)
        } else if self.ports[src].peer.is_some() || self.ports[dst].peer.is_some() {
            Some(LinkError::AlreadyLinked)
        } else if !self.ports[src].caps.fits(self.ports[dst].caps) {
            Some(LinkError::Incompatible)
        } else {
            None
        }
    }

    /// The graph with `src` and `dst` naming each other as peer.
    pub open spec fn linked(self, src: int, dst: int) -> GraphModel {
        GraphModel {
            ports: self.ports.update(src, PortModel { peer: Some(dst), ..self.ports[src] }).update(
                dst,
                PortModel { peer: Some(src), ..self.ports[dst] },
            ),
            ..self
        }
    }

    /// The graph after an attempt to link `src` to `dst`: linked where
    /// nothing refuses, unchanged otherwise.
    pub open spec fn after_link(self, src: int, dst: int) -> GraphModel {
        if self.link_refusal(src, dst).is_none() {
            self.linked(src, dst)
        } else {
            self
        }
    }

    /// Whether the static build can go ahead: neither of its two names is
    /// taken.
    pub open spec fn can_build_source_and_decoder(self) -> bool {
        !self.has_stage_named(source_name()) && !self.has_stage_named(decode_name())
    }

    /// The graph after the static build: a source stage bound to `path`, a
    /// decode stage, one output on the first, one input on the second, and
    /// the link between the two.
    pub open spec fn with_source_and_decoder(self, path: Seq<char>) -> GraphModel {
        let s = self.stages.len() as int;
        let p = self.ports.len() as int;
        self.with_stage(
            StageModel {
                name: source_name(),
                kind: StageKindModel::Source { location: path },
                state: PipelineState::Null,
            },
        ).with_stage(
            StageModel {
                name: decode_name(),
                kind: StageKindModel::Decode,
                state: PipelineState::Null,
            },
        ).with_port(
            PortModel {
                stage: s,
                direction: Direction::Output,
                caps: PortCapsModel::Any,
                peer: None,
            },
        ).with_port(
            PortModel {
                stage: s + 1,
                direction: Direction::Input,
                caps: PortCapsModel::Any,
                peer: None,
            },
        ).linked(p, p + 1)
    }

    /// The graph after the sink was built: a sink stage that asks for a
    /// notification for each buffer and for synchronized delivery, with one
    /// input that accepts any video, linked to nothing.
    pub open spec fn with_sink(self) -> GraphModel {
        self.with_stage(
            StageModel {
                name: sink_name(),
                kind: StageKindModel::Sink { notify_buffers: true, synchronized: true },
                state: PipelineState::Null,
            },
        ).with_port(
            PortModel {
                stage: self.stages.len() as int,
                direction: Direction::Input,
                caps: PortCapsModel::AnyVideo,
                peer: None,
            },
        )
    }

    /// The graph without stages, at rest.
    pub open spec fn empty() -> GraphModel {
        GraphModel {
            stages: Seq::empty(),
            ports: Seq::empty(),
            target: PipelineState::Null,
            current: PipelineState::Null,
        }
    }

    /// The graph of a run before it starts: source and decode stage, linked,
    /// and the sink, linked to nothing.
    pub open spec fn wired(path: Seq<char>) -> GraphModel {
        GraphModel::empty().with_source_and_decoder(path).with_sink()
    }

    /// Whether `s` names a decode stage.
    pub open spec fn is_decode_stage(self, s: int) -> bool {
        self.has_stage(s) && self.stages[s].kind == StageKindModel::Decode
    }

    /// The graph after the decode stage `decode` announced an output with
    /// the given media types: unchanged when `decode` is no decode stage.
    pub open spec fn with_output(self, decode: int, caps: PortCapsModel) -> GraphModel {
        if self.is_decode_stage(decode) {
            self.with_port(
                PortModel { stage: decode, direction: Direction::Output, caps: caps, peer: None },
            )
        } else {
            self
        }
    }

    /// The linking policy: a discovered output is wanted when it is video
    /// and the sink input is still free.
    pub open spec fn wants_link(self, new_output: int, sink_input: int) -> bool {
        &&& self.has_port(new_output)
        &&& self.ports[new_output].caps.is_video()
        &&& self.has_port(sink_input)
        &&& self.ports[sink_input].peer.is_none()
    }

    /// What the discovery of `new_output` on the stage `decode` comes to.
    ///
    /// An output that is not wanted is ignored. A wanted one is linked to
    /// the sink input; if it does not belong to `decode`, or the link is
    /// refused, the topology is broken.
    pub open spec fn discovery(self, decode: int, new_output: int, sink_input: int) -> Result<
        Discovery,
        PipelineError,
    > {
        if !self.wants_link(new_output, sink_input) {
            Ok(Discovery::Ignored)
        } else if self.ports[new_output].stage != decode || self.link_refusal(
            new_output,
            sink_input,
        ).is_some() {
            Err(PipelineError::LinkInvariantViolation)
        } else {
            Ok(Discovery::Linked)
        }
    }

    /// The graph after the discovery of `new_output`: the link is there
    /// exactly when the discovery says `Linked`.
    pub open spec fn after_discovery(
        self,
        decode: int,
        new_output: int,
        sink_input: int,
    ) -> GraphModel {
        if self.discovery(decode, new_output, sink_input) == Ok::<Discovery, PipelineError>(
            Discovery::Linked,
        ) {
            self.linked(new_output, sink_input)
        } else {
            self
        }
    }
}

/// A new stage under a name that no stage bears keeps the graph's invariant.
pub proof fn lemma_with_stage_keeps_wf(g: GraphModel, stage: StageModel)
    requires
        g.wf(),
        !g.has_stage_named(stage.name),
    ensures
        g.with_stage(stage).wf(),
{
    let h = g.with_stage(stage);
    assert forall|p: int| 0 <= p < h.ports.len() implies #[trigger] h.link_is_mutual(p) by {
        assert(g.link_is_mutual(p));
    }
    assert forall|i: int, j: int| 0 <= i < j < h.stages.len() implies (#[trigger] h.stages[i]).name
        != (#[trigger] h.stages[j]).name by {
        if j == h.stages.len() - 1 {
            assert(g.stages[i].name != stage.name);
        } else {
            assert(h.stages[i] == g.stages[i]);
            assert(h.stages[j] == g.stages[j]);
        }
    }
}

/// A new connection point without a peer, on a stage of the graph, keeps the
/// graph's invariant.
pub proof fn lemma_with_port_keeps_wf(g: GraphModel, port: PortModel)
    requires
        g.wf(),
        g.has_stage(port.stage),
        port.peer.is_none(),
    ensures
        g.with_port(port).wf(),
{
    let h = g.with_port(port);
    assert forall|p: int| 0 <= p < h.ports.len() implies #[trigger] h.link_is_mutual(p) by {
        if p < g.ports.len() {
            assert(g.link_is_mutual(p));
            assert(h.ports[p] == g.ports[p]);
        }
    }
    assert forall|p: int| 0 <= p < h.ports.len() implies 0 <= (#[trigger] h.ports[p]).stage
        < h.stages.len() by {
        if p < g.ports.len() {
            assert(h.ports[p] == g.ports[p]);
        }
    }
}

/// A link that nothing refuses keeps the graph's invariant.
pub proof fn lemma_link_keeps_wf(g: GraphModel, src: int, dst: int)
    requires
        g.wf(),
        g.link_refusal(src, dst).is_none(),
    ensures
        g.linked(src, dst).wf(),
{
    let h = g.linked(src, dst);
    assert forall|p: int| 0 <= p < h.ports.len() implies #[trigger] h.link_is_mutual(p) by {
        if p != src && p != dst {
            assert(g.link_is_mutual(p));
            assert(h.ports[p] == g.ports[p]);
        }
    }
    assert forall|p: int| 0 <= p < h.ports.len() implies 0 <= (#[trigger] h.ports[p]).stage
        < h.stages.len() by {
        assert(h.ports[p].stage == g.ports[p].stage);
    }
}

} // verus!
