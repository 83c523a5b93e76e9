//! The processing graph: an arena of stages and of their connection points,
//! with the links between them and the lifecycle state of every stage.

use vstd::prelude::*;
use vstd::string::*;
use crate::caps::Capability;
use crate::error::PipelineError;
use crate::model::{decode_name, sink_name, source_name};
use crate::model::{lemma_link_keeps_wf, lemma_with_port_keeps_wf, lemma_with_stage_keeps_wf};
use crate::model::{GraphModel, PortCapsModel, PortModel, StageKindModel, StageModel};
use crate::state::PipelineState;

verus! {

/// Stable identity of a stage: its position in the arena.
#[derive(Clone, Copy, Debug, PartialEq, Eq, Structural)]
pub struct StageId(pub usize);

/// Stable identity of a connection point: its position in the arena.
#[derive(Clone, Copy, Debug, PartialEq, Eq, Structural)]
pub struct PortId(pub usize);

/// Side of a stage on which a connection point sits.
#[derive(Clone, Copy, Debug, PartialEq, Eq, Structural)]
pub enum Direction {
    Input,
    Output,
}

/// What a stage does, with its configuration.
#[derive(Debug, PartialEq, Eq)]
pub enum StageKind {
    /// Reads the bytes of the file at `location`.
    Source { location: String },
    /// Inspects the container and announces its decoded streams while
    /// running.
    Decode,
    /// Consumes decoded video buffers. `notify_buffers` asks for one
    /// notification for each buffer, `synchronized` for delivery in
    /// presentation order.
    Sink { notify_buffers: bool, synchronized: bool },
}

/// A named processing node.
#[derive(Debug, PartialEq, Eq)]
pub struct Stage {
    pub name: String,
    pub kind: StageKind,
    pub state: PipelineState,
}

/// Media types that a connection point carries or accepts.
#[derive(Debug, PartialEq, Eq)]
pub enum PortCaps {
    /// Nothing negotiated yet, or anything accepted.
    Any,
    /// Any video capability, whatever its size and format.
    AnyVideo,
    /// The negotiated descriptor.
    Fixed(Capability),
}

/// A typed connection point of a stage.
#[derive(Debug, PartialEq, Eq)]
pub struct Port {
    pub stage: StageId,
    pub direction: Direction,
    pub caps: PortCaps,
    pub peer: Option<PortId>,
}

/// Why two connection points were not linked.
#[derive(Clone, Copy, Debug, PartialEq, Eq, Structural)]
pub enum LinkError {
    /// One of the two identities names no connection point of the graph.
    UnknownPort,
    /// The first is no output or the second no input.
    WrongDirection,
    /// Both belong to the same stage.
    SameStage,
    /// One of the two is linked already.
    AlreadyLinked,
    /// Their media types do not fit together.
    Incompatible,
}

/// What became of a discovered stream.
#[derive(Clone, Copy, Debug, PartialEq, Eq, Structural)]
pub enum Discovery {
    /// The stream was linked to the sink input.
    Linked,
    /// The stream was left unconnected.
    Ignored,
}

/// Handle of the decode stage, as the static build returns it.
#[derive(Clone, Copy, Debug, PartialEq, Eq, Structural)]
pub struct DecodeStageHandle {
    pub stage: StageId,
    pub input: PortId,
}

/// Handle of the sink stage and of its one input.
#[derive(Clone, Copy, Debug, PartialEq, Eq, Structural)]
pub struct SinkHandle {
    pub stage: StageId,
    pub input: PortId,
}

/// A graph with its static part built, ready to be started.
#[derive(Debug)]
pub struct Wiring {
    pub graph: Graph,
    pub decode: DecodeStageHandle,
    pub sink: SinkHandle,
}

impl View for StageKind {
    type V = StageKindModel;

    open spec fn view(&self) -> StageKindModel {
        match self {
            StageKind::Source { location } => StageKindModel::Source { location: location@ },
            StageKind::Decode => StageKindModel::Decode,
            StageKind::Sink { notify_buffers, synchronized } => StageKindModel::Sink {
                notify_buffers: *notify_buffers,
                synchronized: *synchronized,
            },
        }
    }
}

impl View for Stage {
    type V = StageModel;

    open spec fn view(&self) -> StageModel {
        StageModel { name: self.name@, kind: self.kind@, state: self.state }
    }
}

impl View for PortCaps {
    type V = PortCapsModel;

    open spec fn view(&self) -> PortCapsModel {
        match self {
            PortCaps::Any => PortCapsModel::Any,
            PortCaps::AnyVideo => PortCapsModel::AnyVideo,
            PortCaps::Fixed(c) => PortCapsModel::Fixed(c@),
        }
    }
}

impl View for Port {
    type V = PortModel;

    open spec fn view(&self) -> PortModel {
        PortModel {
            stage: self.stage.0 as int,
            direction: self.direction,
            caps: self.caps@,
            peer: match self.peer {
                Some(q) => Some(q.0 as int),
                None => None,
            },
        }
    }
}

impl PortCaps {
    /// Whether the media category is video.
    pub fn is_video(&self) -> (r: bool)
        ensures
            r == self@.is_video(),
    {
        match self {
            PortCaps::Any => false,
            PortCaps::AnyVideo => true,
            PortCaps::Fixed(c) => c.is_video(),
        }
    }

    /// Whether data of `self` can flow into a connection point of `other`.
    pub fn fits(&self, other: &PortCaps) -> (r: bool)
        ensures
            r == self@.fits(other@),
    {
        match (self, other) {
            (PortCaps::Any, _) => true,
            (_, PortCaps::Any) => true,
            (PortCaps::AnyVideo, PortCaps::AnyVideo) => true,
            (PortCaps::AnyVideo, PortCaps::Fixed(c)) => c.is_video(),
            (PortCaps::Fixed(c), PortCaps::AnyVideo) => c.is_video(),
            (PortCaps::Fixed(a), PortCaps::Fixed(b)) => a.media_type == b.media_type,
        }
    }
}

/// Mathematical value of the media types of an announced output: the
/// descriptor when there is one.
pub open spec fn announced_caps(caps: Option<Capability>) -> PortCapsModel {
    match caps {
        Some(c) => PortCapsModel::Fixed(c@),
        None => PortCapsModel::Any,
    }
}

/// The directed graph of stages that the controller owns.
#[derive(Debug)]
pub struct Graph {
    stages: Vec<Stage>,
    ports: Vec<Port>,
    target: PipelineState,
    current: PipelineState,
}

impl View for Graph {
    type V = GraphModel;

    closed spec fn view(&self) -> GraphModel {
        GraphModel {
            stages: Seq::new(self.stages@.len(), |i: int| self.stages@[i]@),
            ports: Seq::new(self.ports@.len(), |i: int| self.ports@[i]@),
            target: self.target,
            current: self.current,
        }
    }
}

impl Graph {
    /// The invariant of the graph; see [`GraphModel::wf`].
    pub open spec fn wf(&self) -> bool {
        self@.wf()
    }

    /// An empty graph at rest.
    pub fn new() -> (g: Graph)
        ensures
            g.wf(),
            g@ == GraphModel::empty(),
    {
        let g = Graph {
            stages: Vec::new(),
            ports: Vec::new(),
            target: PipelineState::Null,
            current: PipelineState::Null,
        };
        proof {
            assert(g@.stages =~= GraphModel::empty().stages);
            assert(g@.ports =~= GraphModel::empty().ports);
        }
        g
    }

    /// Number of stages.
    pub fn stage_count(&self) -> (n: usize)
        ensures
            n == self@.stages.len(),
    {
        self.stages.len()
    }

    /// Number of connection points.
    pub fn port_count(&self) -> (n: usize)
        ensures
            n == self@.ports.len(),
    {
        self.ports.len()
    }

    /// The stage with the given identity.
    pub fn stage(&self, id: StageId) -> (r: Option<&Stage>)
        ensures
            r.is_some() == self@.has_stage(id.0 as int),
            r.is_some() ==> r.unwrap()@ == self@.stages[id.0 as int],
    {
        if id.0 < self.stages.len() {
            Some(&self.stages[id.0])
        } else {
            None
        }
    }

    /// The connection point with the given identity.
    pub fn port(&self, id: PortId) -> (r: Option<&Port>)
        ensures
            r.is_some() == self@.has_port(id.0 as int),
            r.is_some() ==> r.unwrap()@ == self@.ports[id.0 as int],
    {
        if id.0 < self.ports.len() {
            Some(&self.ports[id.0])
        } else {
            None
        }
    }

    /// Whether the connection point exists and has a peer.
    pub fn is_linked(&self, id: PortId) -> (r: bool)
        ensures
            r == (self@.has_port(id.0 as int) && self@.ports[id.0 as int].peer.is_some()),
    {
        if id.0 < self.ports.len() {
            self.ports[id.0].peer.is_some()
        } else {
            false
        }
    }

    /// Looks a stage up by its name: the first stage that bears it, if any.
    pub fn find_stage(&self, name: &str) -> (r: Option<StageId>)
        ensures
            match r {
                Some(id) => {
                    &&& self@.has_stage(id.0 as int)
                    &&& self@.stages[id.0 as int].name == name@
                    &&& forall|j: int| 0 <= j < id.0 ==> (#[trigger] self@.stages[j]).name != name@
                },
                None => !self@.has_stage_named(name@),
            },
    {
        let wanted: String = String::from_str(name);
        let mut i: usize = 0;
        while i < self.stages.len()
            invariant
                i <= self.stages.len(),
                wanted@ == name@,
                forall|j: int| 0 <= j < i ==> (#[trigger] self@.stages[j]).name != name@,
            decreases self.stages.len() - i,
        {
            if self.stages[i].name == wanted {
                assert(self@.stages[i as int].name == name@);
                return Some(StageId(i));
            }
            i = i + 1;
        }
        None
    }

    /// Registers a stage. The name must be new to the graph: a duplicate is
    /// refused as a setup failure and leaves the graph as it was.
    pub fn add_stage(&mut self, name: String, kind: StageKind) -> (r: Result<
        StageId,
        PipelineError,
    >)
        requires
            old(self).wf(),
        ensures
            final(self).wf(),
            match r {
                Ok(id) => {
                    &&& !old(self)@.has_stage_named(name@)
                    &&& id.0 == old(self)@.stages.len()
                    &&& final(self)@ == old(self)@.with_stage(
                        StageModel { name: name@, kind: kind@, state: PipelineState::Null },
                    )
                },
                Err(e) => {
                    &&& old(self)@.has_stage_named(name@)
                    &&& e == PipelineError::SetupFailure
                    &&& final(self)@ == old(self)@
                },
            },
    {
        if self.find_stage(name.as_str()).is_some() {
            return Err(PipelineError::SetupFailure);
        }
        let id: StageId = StageId(self.stages.len());
        let ghost model = StageModel { name: name@, kind: kind@, state: PipelineState::Null };
        self.stages.push(Stage { name, kind, state: PipelineState::Null });
        proof {
            assert(self@.stages =~= old(self)@.stages.push(model));
            assert(self@.ports =~= old(self)@.ports);
            lemma_with_stage_keeps_wf(old(self)@, model);
        }
        Ok(id)
    }

    /// Gives a stage one more connection point, not linked to anything.
    /// `None` when the stage does not exist; the graph is then unchanged.
    pub fn add_port(&mut self, stage: StageId, direction: Direction, caps: PortCaps) -> (r: Option<
        PortId,
    >)
        requires
            old(self).wf(),
        ensures
            final(self).wf(),
            match r {
                Some(id) => {
                    &&& old(self)@.has_stage(stage.0 as int)
                    &&& id.0 == old(self)@.ports.len()
                    &&& final(self)@ == old(self)@.with_port(
                        PortModel {
                            stage: stage.0 as int,
                            direction: direction,
                            caps: caps@,
                            peer: None,
                        },
                    )
                },
                None => !old(self)@.has_stage(stage.0 as int) && final(self)@ == old(self)@,
            },
    {
        if stage.0 >= self.stages.len() {
            return None;
        }
        let id: PortId = PortId(self.ports.len());
        let ghost model = PortModel {
            stage: stage.0 as int,
            direction: direction,
            caps: caps@,
            peer: None,
        };
        self.ports.push(Port { stage, direction, caps, peer: None });
        proof {
            assert(self@.ports =~= old(self)@.ports.push(model));
            assert(self@.stages =~= old(self)@.stages);
            lemma_with_port_keeps_wf(old(self)@, model);
        }
        Some(id)
    }

    /// Links the output `src` to the input `dst`.
    ///
    /// The link is made exactly when nothing refuses it; a refused link
    /// leaves the graph as it was. A connection point holds one link at a
    /// time, so a second link of the same pair is refused.
    pub fn link(&mut self, src: PortId, dst: PortId) -> (r: Result<(), LinkError>)
        requires
            old(self).wf(),
        ensures
            final(self).wf(),
            final(self)@ == old(self)@.after_link(src.0 as int, dst.0 as int),
            match r {
                Ok(_) => old(self)@.link_refusal(src.0 as int, dst.0 as int).is_none(),
                Err(e) => old(self)@.link_refusal(src.0 as int, dst.0 as int) == Some(e),
            },
    {
        if src.0 >= self.ports.len() || dst.0 >= self.ports.len() {
            return Err(LinkError::UnknownPort);
        }
        let a: &Port = &self.ports[src.0];
        let b: &Port = &self.ports[dst.0];
        if a.direction != Direction::Output || b.direction != Direction::Input {
            return Err(LinkError::WrongDirection);
        }
        if a.stage == b.stage {
            return Err(LinkError::SameStage);
        }
        if a.peer.is_some() || b.peer.is_some() {
            return Err(LinkError::AlreadyLinked);
        }
        if !a.caps.fits(&b.caps) {
            return Err(LinkError::Incompatible);
        }
        self.ports[src.0].peer = Some(dst);
        self.ports[dst.0].peer = Some(src);
        proof {
            assert(self@.ports =~= old(self)@.linked(src.0 as int, dst.0 as int).ports);
            assert(self@.stages =~= old(self)@.stages);
            lemma_link_keeps_wf(old(self)@, src.0 as int, dst.0 as int);
        }
        Ok(())
    }

    /// Builds the whole static part of a run on a fresh graph: the source
    /// bound to `path`, the decode stage, the link between them, and the
    /// sink. On a fresh graph none of this can fail.
    pub fn wire(path: String) -> (w: Wiring)
        ensures
            w.graph.wf(),
            w.graph@ == GraphModel::wired(path@),
            w.decode == (DecodeStageHandle { stage: StageId(1), input: PortId(1) }),
            w.sink == (SinkHandle { stage: StageId(2), input: PortId(2) }),
    {
        let mut graph: Graph = Graph::new();
        let decode: DecodeStageHandle = match graph.build_source_and_decoder(path) {
            Ok(handle) => handle,
            Err(_) => DecodeStageHandle { stage: StageId(1), input: PortId(1) },
        };
        proof {
            reveal_strlit("src_element");
            reveal_strlit("decode_element");
            reveal_strlit("appsink_element");
            let g = graph@;
            assert(!g.has_stage_named(sink_name())) by {
                if g.has_stage_named(sink_name()) {
                    let i = choose|i: int|
                        0 <= i < g.stages.len() && (#[trigger] g.stages[i]).name == sink_name();
                    assert(source_name()[0] != sink_name()[0]);
                    assert(decode_name()[0] != sink_name()[0]);
                }
            }
        }
        let sink: SinkHandle = match graph.build_sink() {
            Ok(handle) => handle,
            Err(_) => SinkHandle { stage: StageId(2), input: PortId(2) },
        };
        Wiring { graph, decode, sink }
    }

    /// The static part of the graph: registers a source stage that reads
    /// `path` and a decode stage without outputs, and links the first to the
    /// second. Whether the file exists is not looked at here.
    ///
    /// Fails with a setup failure, leaving the graph as it was, exactly when
    /// one of the two stage names is taken.
    pub fn build_source_and_decoder(&mut self, path: String) -> (r: Result<
        DecodeStageHandle,
        PipelineError,
    >)
        requires
            old(self).wf(),
        ensures
            final(self).wf(),
            match r {
                Ok(handle) => {
                    &&& old(self)@.can_build_source_and_decoder()
                    &&& handle.stage.0 == old(self)@.stages.len() + 1
                    &&& handle.input.0 == old(self)@.ports.len() + 1
                    &&& final(self)@ == old(self)@.with_source_and_decoder(path@)
                },
                Err(e) => {
                    &&& !old(self)@.can_build_source_and_decoder()
                    &&& e == PipelineError::SetupFailure
                    &&& final(self)@ == old(self)@
                },
            },
    {
        proof {
            reveal_strlit("src_element");
            reveal_strlit("decode_element");
        }
        if self.find_stage("src_element").is_some() || self.find_stage("decode_element").is_some() {
            return Err(PipelineError::SetupFailure);
        }
        let source: StageId = match self.add_stage(
            String::from_str("src_element"),
            StageKind::Source { location: path },
        ) {
            Ok(id) => id,
            Err(e) => {
                return Err(e);
            },
        };
        proof {
            let g = self@;
            assert(!g.has_stage_named(decode_name())) by {
                if g.has_stage_named(decode_name()) {
                    let i = choose|i: int|
                        0 <= i < g.stages.len() && (#[trigger] g.stages[i]).name == decode_name();
                    if i < old(self)@.stages.len() {
                        assert(old(self)@.stages[i].name == decode_name());
                    } else {
                        assert(source_name()[0] != decode_name()[0]);
                    }
                }
            }
        }
        let decode: StageId = match self.add_stage(
            String::from_str("decode_element"),
            StageKind::Decode,
        ) {
            Ok(id) => id,
            Err(e) => {
                return Err(e);
            },
        };
        let output: PortId = match self.add_port(source, Direction::Output, PortCaps::Any) {
            Some(id) => id,
            None => {
                return Err(PipelineError::SetupFailure);
            },
        };
        let input: PortId = match self.add_port(decode, Direction::Input, PortCaps::Any) {
            Some(id) => id,
            None => {
                return Err(PipelineError::SetupFailure);
            },
        };
        match self.link(output, input) {
            Ok(_) => Ok(DecodeStageHandle { stage: decode, input }),
            Err(_) => Err(PipelineError::SetupFailure),
        }
    }

    /// Registers the frame sink: it accepts any video, asks for one
    /// notification for each buffer and for delivery in presentation order.
    /// Nothing is linked: the video output does not exist before the decode
    /// stage discovers it.
    ///
    /// Fails with a setup failure, leaving the graph as it was, exactly when
    /// the sink's name is taken.
    pub fn build_sink(&mut self) -> (r: Result<SinkHandle, PipelineError>)
        requires
            old(self).wf(),
        ensures
            final(self).wf(),
            match r {
                Ok(handle) => {
                    &&& !old(self)@.has_stage_named(sink_name())
                    &&& handle.stage.0 == old(self)@.stages.len()
                    &&& handle.input.0 == old(self)@.ports.len()
                    &&& final(self)@ == old(self)@.with_sink()
                },
                Err(e) => {
                    &&& old(self)@.has_stage_named(sink_name())
                    &&& e == PipelineError::SetupFailure
                    &&& final(self)@ == old(self)@
                },
            },
    {
        let stage: StageId = match self.add_stage(
            String::from_str("appsink_element"),
            StageKind::Sink { notify_buffers: true, synchronized: true },
        ) {
            Ok(id) => id,
            Err(e) => {
                return Err(e);
            },
        };
        match self.add_port(stage, Direction::Input, PortCaps::AnyVideo) {
            Some(input) => Ok(SinkHandle { stage, input }),
            None => Err(PipelineError::SetupFailure),
        }
    }

    /// Records an output that the decode stage `decode` has just announced,
    /// with the descriptor it currently has, if any.
    ///
    /// `None`, and no change, exactly when `decode` is no decode stage of the
    /// graph.
    pub fn announce_output(&mut self, decode: StageId, caps: Option<Capability>) -> (r: Option<
        PortId,
    >)
        requires
            old(self).wf(),
        ensures
            final(self).wf(),
            final(self)@ == old(self)@.with_output(decode.0 as int, announced_caps(caps)),
            match r {
                Some(id) => old(self)@.is_decode_stage(decode.0 as int) && id.0 == old(
                    self,
                )@.ports.len(),
                None => !old(self)@.is_decode_stage(decode.0 as int),
            },
    {
        if decode.0 >= self.stages.len() {
            return None;
        }
        match &self.stages[decode.0].kind {
            StageKind::Decode => {},
            _ => {
                return None;
            },
        }
        let port_caps: PortCaps = match caps {
            Some(c) => PortCaps::Fixed(c),
            None => PortCaps::Any,
        };
        self.add_port(decode, Direction::Output, port_caps)
    }

    /// Reacts to an output that the decode stage `decode` has discovered.
    ///
    /// The output is linked to `sink_input` when it is video and that input
    /// is still free; any other output is ignored, so at most one stream ever
    /// reaches the sink. A wanted link that cannot be made is a
    /// `LinkInvariantViolation`, and the graph stays as it was.
    pub fn on_stream_discovered(
        &mut self,
        decode: StageId,
        new_output: PortId,
        sink_input: PortId,
    ) -> (r: Result<Discovery, PipelineError>)
        requires
            old(self).wf(),
        ensures
            final(self).wf(),
            r == old(self)@.discovery(decode.0 as int, new_output.0 as int, sink_input.0 as int),
            final(self)@ == old(self)@.after_discovery(
                decode.0 as int,
                new_output.0 as int,
                sink_input.0 as int,
            ),
    {
        if new_output.0 >= self.ports.len() || sink_input.0 >= self.ports.len() {
            return Ok(Discovery::Ignored);
        }
        if !self.ports[new_output.0].caps.is_video() || self.ports[sink_input.0].peer.is_some() {
            return Ok(Discovery::Ignored);
        }
        if self.ports[new_output.0].stage != decode {
            return Err(PipelineError::LinkInvariantViolation);
        }
        match self.link(new_output, sink_input) {
            Ok(_) => Ok(Discovery::Linked),
            Err(_) => Err(PipelineError::LinkInvariantViolation),
        }
    }

    /// The state that all stages were last commanded to.
    pub fn target(&self) -> (t: PipelineState)
        ensures
            t == self@.target,
    {
        self.target
    }

    /// The aggregate state of the graph.
    pub fn current(&self) -> (c: PipelineState)
        ensures
            c == self@.current,
    {
        self.current
    }

    /// Commands all stages together to `target`. Nothing has changed state
    /// when this returns: arrival is confirmed later, stage by stage.
    pub fn command(&mut self, target: PipelineState)
        requires
            old(self).wf(),
        ensures
            final(self).wf(),
            final(self)@ == old(self)@.commanded(target),
    {
        self.target = target;
        proof {
            assert(self@.stages =~= old(self)@.stages);
            assert(self@.ports =~= old(self)@.ports);
            let g = self@;
            assert forall|p: int| 0 <= p < g.ports.len() implies #[trigger] g.link_is_mutual(p) by {
                assert(old(self)@.link_is_mutual(p));
            }
        }
    }

    /// Whether every stage has come as far as `mark`.
    fn all_reached(&self, mark: PipelineState, upward: bool) -> (r: bool)
        ensures
            r == self@.all_reached(mark, upward),
    {
        let wanted: u8 = mark.rank_of();
        let mut i: usize = 0;
        while i < self.stages.len()
            invariant
                i <= self.stages.len(),
                wanted == mark.rank(),
                forall|j: int|
                    0 <= j < i ==> (#[trigger] self@.stages[j]).state.has_reached(mark, upward),
            decreases self.stages.len() - i,
        {
            let have: u8 = self.stages[i].state.rank_of();
            let reached: bool = if upward {
                have >= wanted
            } else {
                have <= wanted
            };
            if !reached {
                assert(!self@.stages[i as int].state.has_reached(mark, upward));
                return false;
            }
            i = i + 1;
        }
        true
    }

    /// Records the report that `stage` went from `from` to `to`.
    ///
    /// The report is taken, and `true` returned, exactly when the stage
    /// exists, was last known to be in `from`, and `to` is one step away
    /// from `from`. The aggregate state then moves one step towards the
    /// target if every stage has confirmed that step. A report that is not
    /// taken changes nothing.
    pub fn observe_state_changed(
        &mut self,
        stage: StageId,
        from: PipelineState,
        to: PipelineState,
    ) -> (taken: bool)
        requires
            old(self).wf(),
        ensures
            final(self).wf(),
            taken == old(self)@.accepts_change(stage.0 as int, from, to),
            final(self)@ == old(self)@.after_change(stage.0 as int, from, to),
    {
        if stage.0 >= self.stages.len() {
            return false;
        }
        if self.stages[stage.0].state != from || !from.is_adjacent(to) {
            return false;
        }
        self.stages[stage.0].state = to;
        proof {
            assert(self@.stages =~= old(self)@.with_state(stage.0 as int, to).stages);
            assert(self@.ports =~= old(self)@.ports);
        }
        if self.current != self.target {
            let mark: PipelineState = self.current.step_toward(self.target);
            let upward: bool = self.current.rank_of() < self.target.rank_of();
            if self.all_reached(mark, upward) {
                self.current = mark;
            }
        }
        proof {
            assert(self@.stages =~= old(self)@.with_state(stage.0 as int, to).stages);
            assert(self@.ports =~= old(self)@.ports);
            crate::lifecycle::lemma_change_moves_one_step(old(self)@, stage.0 as int, from, to);
        }
        true
    }
}

} // verus!
