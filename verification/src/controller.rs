//! The pipeline controller: it owns the graph, starts it, reads the status
//! channel message by message and says when and how the run ends.
//!
//! The controller never waits and never touches the runtime. Its caller
//! performs each action it returns and hands back what happened as the next
//! event.

use vstd::prelude::*;
use vstd::string::*;
use crate::error::PipelineError;
use crate::graph::Graph;
use crate::model::GraphModel;
use crate::state::{pending_name, state_name, PipelineState};

verus! {

/// What the runtime answered to a command to change state.
#[derive(Clone, Copy, Debug, PartialEq, Eq, Structural)]
pub enum StateChangeOutcome {
    /// The graph was in the target state already.
    AlreadyThere,
    /// The change has begun and will be confirmed on the status channel.
    Async,
    /// The change was refused.
    Failed,
}

/// A notification on the status channel.
#[derive(Debug, PartialEq, Eq)]
pub enum StatusMessage {
    /// The stage named `stage`, shown in logs as `path`, went from `from`
    /// to `to`; `pending` is the state it is still headed for, if any.
    StateChanged {
        stage: String,
        path: String,
        from: PipelineState,
        to: PipelineState,
        pending: Option<PipelineState>,
    },
    /// The stream is over.
    EndOfStream,
    /// A stage reported an error.
    Error { source: String, detail: String },
    /// Any other kind of message.
    Other,
}

/// What the controller is told.
#[derive(Debug, PartialEq, Eq)]
pub enum Event {
    /// The graph is wired; the run may begin.
    Start,
    /// The runtime answered the last command.
    Commanded(StateChangeOutcome),
    /// A message arrived on the status channel.
    Message(StatusMessage),
}

/// What the controller asks of its caller.
#[derive(Debug, PartialEq, Eq)]
pub enum Action {
    /// Go on waiting for the next message.
    Nothing,
    /// Command the whole graph to the given state and report the answer.
    Command(PipelineState),
    /// Print the line.
    Log(String),
    /// Command the whole graph to `teardown`, wait until that is done, and
    /// end the run with `error`.
    Finish { teardown: PipelineState, error: PipelineError },
}

/// Where a run stands.
#[derive(Clone, Copy, Debug, PartialEq, Eq, Structural)]
pub enum Phase {
    /// Wired, not started.
    Idle,
    /// The start was commanded; the answer is awaited.
    Starting,
    /// Playback is under way; messages are read.
    Running,
    /// The run is over. Nothing starts it again.
    Stopped,
}

/// Mathematical value of a [`StatusMessage`].
pub enum StatusMessageModel {
    StateChanged {
        stage: Seq<char>,
        path: Seq<char>,
        from: PipelineState,
        to: PipelineState,
        pending: Option<PipelineState>,
    },
    EndOfStream,
    Error { source: Seq<char>, detail: Seq<char> },
    Other,
}

/// Mathematical value of an [`Event`].
pub enum EventModel {
    Start,
    Commanded(StateChangeOutcome),
    Message(StatusMessageModel),
}

/// Mathematical value of an [`Action`].
pub enum ActionModel {
    Nothing,
    Command(PipelineState),
    Log(Seq<char>),
    Finish { teardown: PipelineState, error: PipelineError },
}

/// Mathematical value of a [`Controller`].
pub struct ControllerModel {
    pub graph: GraphModel,
    pub phase: Phase,
}

impl View for StatusMessage {
    type V = StatusMessageModel;

    open spec fn view(&self) -> StatusMessageModel {
        match self {
            StatusMessage::StateChanged { stage, path, from, to, pending } => {
                StatusMessageModel::StateChanged {
                    stage: stage@,
                    path: path@,
                    from: *from,
                    to: *to,
                    pending: *pending,
                }
            },
            StatusMessage::EndOfStream => StatusMessageModel::EndOfStream,
            StatusMessage::Error { source, detail } => StatusMessageModel::Error {
                source: source@,
                detail: detail@,
            },
            StatusMessage::Other => StatusMessageModel::Other,
        }
    }
}

impl View for Event {
    type V = EventModel;

    open spec fn view(&self) -> EventModel {
        match self {
            Event::Start => EventModel::Start,
            Event::Commanded(outcome) => EventModel::Commanded(*outcome),
            Event::Message(message) => EventModel::Message(message@),
        }
    }
}

impl View for Action {
    type V = ActionModel;

    open spec fn view(&self) -> ActionModel {
        match self {
            Action::Nothing => ActionModel::Nothing,
            Action::Command(target) => ActionModel::Command(*target),
            Action::Log(line) => ActionModel::Log(line@),
            Action::Finish { teardown, error } => ActionModel::Finish {
                teardown: *teardown,
                error: *error,
            },
        }
    }
}

/// The line that reports a state change:
/// `State changed from <path>: <from> -> <to> (<pending>)`.
pub open spec fn state_changed_text(
    path: Seq<char>,
    from: PipelineState,
    to: PipelineState,
    pending: Option<PipelineState>,
) -> Seq<char> {
    "State changed from "@ + path + ": "@ + state_name(Some(from)) + " -> "@ + state_name(Some(to))
        + " ("@ + state_name(pending) + ")"@
}

/// The line that echoes the input path at startup: `File arg: <path>`.
pub open spec fn startup_text(path: Seq<char>) -> Seq<char> {
    "File arg: "@ + path
}

/// Renders the line that reports a state change.
pub fn state_changed_line(
    path: &str,
    from: PipelineState,
    to: PipelineState,
    pending: Option<PipelineState>,
) -> (line: String)
    ensures
        line@ == state_changed_text(path@, from, to, pending),
{
    let mut line: String = String::from_str("State changed from ");
    line.append(path);
    line.append(": ");
    line.append(from.name());
    line.append(" -> ");
    line.append(to.name());
    line.append(" (");
    line.append(pending_name(pending));
    line.append(")");
    line
}

/// Renders the line that echoes the input path at startup.
pub fn startup_line(path: &str) -> (line: String)
    ensures
        line@ == startup_text(path@),
{
    let mut line: String = String::from_str("File arg: ");
    line.append(path);
    line
}

impl StatusMessageModel {
    /// The failure with which a message ends the run, if it ends it.
    pub open spec fn terminal(self) -> Option<PipelineError> {
        match self {
            StatusMessageModel::EndOfStream => Some(PipelineError::EndOfStream),
            StatusMessageModel::Error { .. } => Some(PipelineError::BusError),
            _ => None,
        }
    }
}

impl ControllerModel {
    /// The action with which the controller answers `event`.
    ///
    /// A start is answered once, with the command to play. A refused start
    /// ends the run as a setup failure. While running, a state change is
    /// logged, the end of the stream and an error end the run, and any other
    /// message is passed over. Every end first commands the graph to `Null`.
    /// An event that the phase does not expect is passed over.
    pub open spec fn action_for(self, event: EventModel) -> ActionModel {
        match (self.phase, event) {
            (Phase::Idle, EventModel::Start) => ActionModel::Command(PipelineState::Playing),
            (Phase::Starting, EventModel::Commanded(StateChangeOutcome::Failed)) => {
                ActionModel::Finish {
                    teardown: PipelineState::Null,
                    error: PipelineError::SetupFailure,
                }
            },
            (Phase::Running, EventModel::Message(StatusMessageModel::StateChanged {
                path,
                from,
                to,
                pending,
                ..
            })) => ActionModel::Log(state_changed_text(path, from, to, pending)),
            (Phase::Running, EventModel::Message(message)) => match message.terminal() {
                Some(error) => ActionModel::Finish { teardown: PipelineState::Null, error: error },
                None => ActionModel::Nothing,
            },
            _ => ActionModel::Nothing,
        }
    }

    /// The phase after `event`.
    pub open spec fn phase_after(self, event: EventModel) -> Phase {
        match (self.phase, event) {
            (Phase::Idle, EventModel::Start) => Phase::Starting,
            (Phase::Starting, EventModel::Commanded(StateChangeOutcome::Failed)) => Phase::Stopped,
            (Phase::Starting, EventModel::Commanded(_)) => Phase::Running,
            (Phase::Running, EventModel::Message(message)) => if message.terminal().is_some() {
                Phase::Stopped
            } else {
                Phase::Running
            },
            _ => self.phase,
        }
    }

    /// The graph after `event`: commands set the target of all stages, a
    /// state change of a stage that the graph knows by name is recorded,
    /// and nothing else touches the graph.
    pub open spec fn graph_after(self, event: EventModel) -> GraphModel {
        match self.action_for(event) {
            ActionModel::Command(target) => self.graph.commanded(target),
            ActionModel::Finish { teardown, error } => self.graph.commanded(teardown),
            ActionModel::Log(_) => match event {
                EventModel::Message(StatusMessageModel::StateChanged { stage, from, to, .. }) => {
                    if self.graph.has_stage_named(stage) {
                        self.graph.after_change(self.graph.index_of_stage(stage), from, to)
                    } else {
                        self.graph
                    }
                },
                _ => self.graph,
            },
            ActionModel::Nothing => self.graph,
        }
    }

    /// The controller after `event`.
    pub open spec fn after(self, event: EventModel) -> ControllerModel {
        ControllerModel { graph: self.graph_after(event), phase: self.phase_after(event) }
    }
}

/// The owner of the graph and of the run's phase.
#[derive(Debug)]
pub struct Controller {
    pub graph: Graph,
    pub phase: Phase,
}

impl View for Controller {
    type V = ControllerModel;

    open spec fn view(&self) -> ControllerModel {
        ControllerModel { graph: self.graph@, phase: self.phase }
    }
}

impl Controller {
    /// Takes ownership of a wired graph. The run has not begun.
    pub fn new(graph: Graph) -> (c: Controller)
        ensures
            c.graph == graph,
            c.phase == Phase::Idle,
    {
        Controller { graph, phase: Phase::Idle }
    }

    /// Whether the run is over.
    pub fn is_stopped(&self) -> (r: bool)
        ensures
            r == (self.phase == Phase::Stopped),
    {
        self.phase == Phase::Stopped
    }

    /// Takes one event and returns the action that answers it.
    pub fn step(&mut self, event: Event) -> (action: Action)
        requires
            old(self).graph.wf(),
        ensures
            final(self).graph.wf(),
            final(self)@ == old(self)@.after(event@),
            action@ == old(self)@.action_for(event@),
    {
        match self.phase {
            Phase::Idle => match event {
                Event::Start => {
                    self.graph.command(PipelineState::Playing);
                    self.phase = Phase::Starting;
                    Action::Command(PipelineState::Playing)
                },
                _ => Action::Nothing,
            },
            Phase::Starting => match event {
                Event::Commanded(StateChangeOutcome::Failed) => {
                    self.finish(PipelineError::SetupFailure)
                },
                Event::Commanded(_) => {
                    self.phase = Phase::Running;
                    Action::Nothing
                },
                _ => Action::Nothing,
            },
            Phase::Running => match event {
                Event::Message(StatusMessage::StateChanged { stage, path, from, to, pending }) => {
                    match self.graph.find_stage(stage.as_str()) {
                        Some(id) => {
                            proof {
                                self.graph@.lemma_index_of_stage(stage@, id.0 as int);
                            }
                            self.graph.observe_state_changed(id, from, to);
                        },
                        None => {},
                    }
                    Action::Log(state_changed_line(path.as_str(), from, to, pending))
                },
                Event::Message(StatusMessage::EndOfStream) => {
                    self.finish(PipelineError::EndOfStream)
                },
                Event::Message(StatusMessage::Error { .. }) => self.finish(PipelineError::BusError),
                _ => Action::Nothing,
            },
            Phase::Stopped => Action::Nothing,
        }
    }

    /// Ends the run: the graph is commanded to `Null` and the phase is
    /// `Stopped`.
    fn finish(&mut self, error: PipelineError) -> (action: Action)
        requires
            old(self).graph.wf(),
        ensures
            final(self).graph.wf(),
            final(self).graph@ == old(self).graph@.commanded(PipelineState::Null),
            final(self).phase == Phase::Stopped,
            action@ == (ActionModel::Finish { teardown: PipelineState::Null, error: error }),
    {
        self.graph.command(PipelineState::Null);
        self.phase = Phase::Stopped;
        Action::Finish { teardown: PipelineState::Null, error }
    }
}

/// However a run ends, it ends by tearing the graph down: an action that
/// finishes the run commands `Null`, leaves `Null` as the target of every
/// stage, and leaves the controller stopped. A stopped controller passes
/// every event over and stays as it is.
pub proof fn law_every_end_tears_down(c: ControllerModel, event: EventModel)
    ensures
        c.action_for(event) matches ActionModel::Finish { teardown, error } ==> {
            &&& teardown == PipelineState::Null
            &&& c.after(event).graph.target == PipelineState::Null
            &&& c.after(event).phase == Phase::Stopped
        },
        c.after(event).phase == Phase::Stopped && c.phase != Phase::Stopped ==> c.action_for(
            event,
        ) is Finish,
        c.phase == Phase::Stopped ==> c.action_for(event) == ActionModel::Nothing && c.after(event)
            == c,
{
}

/// The answer to an event depends on the phase and on the event alone, not
/// on what the graph holds or on which of its connection points are linked:
/// a run whose sink never received a stream ends at the end of the stream
/// like any other.
pub proof fn law_answer_does_not_depend_on_links(
    c: ControllerModel,
    d: ControllerModel,
    event: EventModel,
)
    requires
        c.phase == d.phase,
    ensures
        c.action_for(event) == d.action_for(event),
        c.after(event).phase == d.after(event).phase,
        c.phase == Phase::Running ==> c.action_for(
            EventModel::Message(StatusMessageModel::EndOfStream),
        ) == (ActionModel::Finish {
            teardown: PipelineState::Null,
            error: PipelineError::EndOfStream,
        }),
{
}

} // verus!
