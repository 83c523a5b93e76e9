use frame_counter::controller::{
    Action, Controller, Event, Phase, StateChangeOutcome, StatusMessage,
};
use frame_counter::error::PipelineError;
use frame_counter::graph::{Graph, StageId};
use frame_counter::state::PipelineState;

fn running() -> Controller {
    let w = Graph::wire(String::from("in.mp4"));
    let mut c = Controller::new(w.graph);
    assert_eq!(c.step(Event::Start), Action::Command(PipelineState::Playing));
    assert_eq!(c.step(Event::Commanded(StateChangeOutcome::Async)), Action::Nothing);
    c
}

fn state_changed(stage: &str, from: PipelineState, to: PipelineState) -> Event {
    Event::Message(StatusMessage::StateChanged {
        stage: String::from(stage),
        path: format!("/pipeline0/{}", stage),
        from,
        to,
        pending: Some(PipelineState::Playing),
    })
}

#[test]
fn new_controller_is_idle() {
    let c = Controller::new(Graph::new());
    assert_eq!(c.phase, Phase::Idle);
    assert!(!c.is_stopped());
}

#[test]
fn start_commands_playing() {
    let w = Graph::wire(String::from("in.mp4"));
    let mut c = Controller::new(w.graph);
    assert_eq!(c.step(Event::Start), Action::Command(PipelineState::Playing));
    assert_eq!(c.phase, Phase::Starting);
    assert_eq!(c.graph.target(), PipelineState::Playing);
    assert_eq!(c.graph.current(), PipelineState::Null);
}

#[test]
fn start_is_answered_once() {
    let mut c = running();
    assert_eq!(c.step(Event::Start), Action::Nothing);
    assert_eq!(c.phase, Phase::Running);
}

#[test]
fn accepted_start_leads_to_running() {
    for outcome in [StateChangeOutcome::AlreadyThere, StateChangeOutcome::Async] {
        let mut c = Controller::new(Graph::wire(String::from("a")).graph);
        c.step(Event::Start);
        assert_eq!(c.step(Event::Commanded(outcome)), Action::Nothing);
        assert_eq!(c.phase, Phase::Running);
    }
}

#[test]
fn refused_start_is_a_setup_failure() {
    let mut c = Controller::new(Graph::wire(String::from("a")).graph);
    c.step(Event::Start);
    let action = c.step(Event::Commanded(StateChangeOutcome::Failed));
    assert_eq!(
        action,
        Action::Finish { teardown: PipelineState::Null, error: PipelineError::SetupFailure }
    );
    assert!(c.is_stopped());
    assert_eq!(c.graph.target(), PipelineState::Null);
}

#[test]
fn message_before_the_start_is_passed_over() {
    let mut c = Controller::new(Graph::wire(String::from("a")).graph);
    assert_eq!(c.step(Event::Message(StatusMessage::EndOfStream)), Action::Nothing);
    assert_eq!(c.phase, Phase::Idle);
    assert_eq!(c.step(Event::Commanded(StateChangeOutcome::Failed)), Action::Nothing);
    assert_eq!(c.phase, Phase::Idle);
}

#[test]
fn state_change_is_logged_and_has_no_control_effect() {
    let mut c = running();
    let action = c.step(state_changed("src_element", PipelineState::Null, PipelineState::Ready));
    assert_eq!(
        action,
        Action::Log(String::from(
            "State changed from /pipeline0/src_element: Null -> Ready (Playing)"
        ))
    );
    assert_eq!(c.phase, Phase::Running);
    assert_eq!(c.graph.target(), PipelineState::Playing);
}

#[test]
fn state_change_of_a_known_stage_is_recorded() {
    let mut c = running();
    c.step(state_changed("decode_element", PipelineState::Null, PipelineState::Ready));
    assert_eq!(c.graph.stage(StageId(1)).unwrap().state, PipelineState::Ready);
    assert_eq!(c.graph.stage(StageId(0)).unwrap().state, PipelineState::Null);
}

#[test]
fn state_change_of_an_unknown_source_is_only_logged() {
    let mut c = running();
    let action = c.step(state_changed("typefind", PipelineState::Null, PipelineState::Ready));
    assert_eq!(
        action,
        Action::Log(String::from("State changed from /pipeline0/typefind: Null -> Ready (Playing)"))
    );
    for i in 0..3 {
        assert_eq!(c.graph.stage(StageId(i)).unwrap().state, PipelineState::Null);
    }
}

#[test]
fn aggregate_follows_the_logged_changes() {
    let mut c = running();
    let names = ["src_element", "decode_element", "appsink_element"];
    let steps = [
        (PipelineState::Null, PipelineState::Ready),
        (PipelineState::Ready, PipelineState::Paused),
        (PipelineState::Paused, PipelineState::Playing),
    ];
    let mut seen = vec![c.graph.current()];
    for (from, to) in steps {
        for name in names {
            c.step(state_changed(name, from, to));
            if *seen.last().unwrap() != c.graph.current() {
                seen.push(c.graph.current());
            }
        }
    }
    assert_eq!(
        seen,
        vec![
            PipelineState::Null,
            PipelineState::Ready,
            PipelineState::Paused,
            PipelineState::Playing
        ]
    );
}

#[test]
fn end_of_stream_ends_the_run_as_a_failure() {
    let mut c = running();
    let action = c.step(Event::Message(StatusMessage::EndOfStream));
    assert_eq!(
        action,
        Action::Finish { teardown: PipelineState::Null, error: PipelineError::EndOfStream }
    );
    assert!(c.is_stopped());
    assert_eq!(c.graph.target(), PipelineState::Null);
}

#[test]
fn error_ends_the_run_as_a_bus_error() {
    let mut c = running();
    let action = c.step(Event::Message(StatusMessage::Error {
        source: String::from("src_element"),
        detail: String::from("Resource not found."),
    }));
    assert_eq!(
        action,
        Action::Finish { teardown: PipelineState::Null, error: PipelineError::BusError }
    );
    assert!(c.is_stopped());
    assert_eq!(c.graph.target(), PipelineState::Null);
}

#[test]
fn other_messages_are_passed_over() {
    let mut c = running();
    assert_eq!(c.step(Event::Message(StatusMessage::Other)), Action::Nothing);
    assert_eq!(c.phase, Phase::Running);
    assert_eq!(c.graph.target(), PipelineState::Playing);
}

#[test]
fn stopped_controller_passes_everything_over() {
    let mut c = running();
    c.step(Event::Message(StatusMessage::EndOfStream));
    assert_eq!(c.step(Event::Start), Action::Nothing);
    assert_eq!(c.step(Event::Message(StatusMessage::EndOfStream)), Action::Nothing);
    assert_eq!(
        c.step(state_changed("src_element", PipelineState::Null, PipelineState::Ready)),
        Action::Nothing
    );
    assert_eq!(c.step(Event::Commanded(StateChangeOutcome::Async)), Action::Nothing);
    assert!(c.is_stopped());
    assert_eq!(c.graph.stage(StageId(0)).unwrap().state, PipelineState::Null);
}
