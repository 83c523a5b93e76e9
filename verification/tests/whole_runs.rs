use frame_counter::caps::{Capability, Field, FieldValue};
use frame_counter::controller::{
    startup_line, Action, Controller, Event, StateChangeOutcome, StatusMessage,
};
use frame_counter::error::PipelineError;
use frame_counter::graph::{DecodeStageHandle, Discovery, Graph, SinkHandle};
use frame_counter::sink::{FrameSink, Sample};
use frame_counter::state::PipelineState;

struct Run {
    controller: Controller,
    decode: DecodeStageHandle,
    sink_handle: SinkHandle,
    sink: FrameSink,
    lines: Vec<String>,
    ended: Option<(PipelineState, PipelineError)>,
}

fn caps(media_type: &str, width: i32, height: i32) -> Capability {
    Capability {
        media_type: String::from(media_type),
        fields: vec![
            Field { name: String::from("width"), value: FieldValue::Int(width) },
            Field { name: String::from("height"), value: FieldValue::Int(height) },
        ],
    }
}

fn begin(path: &str) -> Run {
    let w = Graph::wire(String::from(path));
    let mut run = Run {
        controller: Controller::new(w.graph),
        decode: w.decode,
        sink_handle: w.sink,
        sink: FrameSink::new(),
        lines: vec![startup_line(path)],
        ended: None,
    };
    assert_eq!(run.controller.step(Event::Start), Action::Command(PipelineState::Playing));
    assert_eq!(
        run.controller.step(Event::Commanded(StateChangeOutcome::Async)),
        Action::Nothing
    );
    run
}

fn discover(run: &mut Run, media_type: &str) -> Discovery {
    let graph = &mut run.controller.graph;
    let port = graph.announce_output(run.decode.stage, Some(caps(media_type, 640, 480))).unwrap();
    graph.on_stream_discovered(run.decode.stage, port, run.sink_handle.input).unwrap()
}

fn deliver(run: &mut Run, width: i32, height: i32) {
    assert!(run.controller.graph.is_linked(run.sink_handle.input));
    let sample = Sample { caps: Some(caps("video/x-raw", width, height)) };
    let obs = run.sink.on_buffer_ready(Some(sample)).unwrap();
    run.lines.push(obs.line());
}

fn post(run: &mut Run, message: StatusMessage) {
    match run.controller.step(Event::Message(message)) {
        Action::Nothing => {}
        Action::Log(line) => run.lines.push(line),
        Action::Finish { teardown, error } => run.ended = Some((teardown, error)),
        Action::Command(_) => unreachable!(),
    }
}

fn frame_lines(run: &Run) -> Vec<String> {
    run.lines.iter().filter(|l| l.starts_with("Frame ")).cloned().collect()
}

#[test]
fn ten_frames_of_video_give_ten_lines_and_end_of_stream() {
    let mut run = begin("ten.mp4");
    assert_eq!(discover(&mut run, "video/x-raw"), Discovery::Linked);
    for _ in 0..10 {
        deliver(&mut run, 640, 480);
    }
    post(&mut run, StatusMessage::EndOfStream);

    let expected: Vec<String> = (1..=10).map(|n| format!("Frame {}: 640x480", n)).collect();
    assert_eq!(frame_lines(&run), expected);
    assert_eq!(run.lines[0], "File arg: ten.mp4");
    assert_eq!(run.ended, Some((PipelineState::Null, PipelineError::EndOfStream)));
    assert!(run.controller.is_stopped());
    assert_eq!(run.sink.count(), 10);
}

#[test]
fn missing_file_gives_a_bus_error_and_no_frame_line() {
    let mut run = begin("/no/such/file");
    post(
        &mut run,
        StatusMessage::Error {
            source: String::from("src_element"),
            detail: String::from("No such file"),
        },
    );
    assert!(frame_lines(&run).is_empty());
    assert_eq!(run.ended, Some((PipelineState::Null, PipelineError::BusError)));
    assert_eq!(run.controller.graph.target(), PipelineState::Null);
    assert_eq!(run.sink.count(), 0);
}

#[test]
fn refused_start_gives_a_setup_failure_and_no_frame_line() {
    let w = Graph::wire(String::from("/no/such/file"));
    let mut controller = Controller::new(w.graph);
    controller.step(Event::Start);
    let action = controller.step(Event::Commanded(StateChangeOutcome::Failed));
    assert_eq!(
        action,
        Action::Finish { teardown: PipelineState::Null, error: PipelineError::SetupFailure }
    );
    assert_eq!(controller.graph.target(), PipelineState::Null);
}

#[test]
fn audio_only_input_ends_with_an_unlinked_sink_and_no_frame_line() {
    let mut run = begin("song.ogg");
    assert_eq!(discover(&mut run, "audio/x-raw"), Discovery::Ignored);
    assert_eq!(discover(&mut run, "audio/x-raw"), Discovery::Ignored);
    post(&mut run, StatusMessage::EndOfStream);
    assert!(frame_lines(&run).is_empty());
    assert!(!run.controller.graph.is_linked(run.sink_handle.input));
    assert_eq!(run.ended, Some((PipelineState::Null, PipelineError::EndOfStream)));
    assert_eq!(run.sink.count(), 0);
}

#[test]
fn input_without_streams_ends_with_an_unlinked_sink() {
    let mut run = begin("empty.bin");
    post(&mut run, StatusMessage::EndOfStream);
    assert!(frame_lines(&run).is_empty());
    assert!(!run.controller.graph.is_linked(run.sink_handle.input));
    assert_eq!(run.ended, Some((PipelineState::Null, PipelineError::EndOfStream)));
}

#[test]
fn error_in_mid_stream_keeps_the_lines_printed_so_far() {
    let mut run = begin("broken.mp4");
    assert_eq!(discover(&mut run, "video/x-raw"), Discovery::Linked);
    for _ in 0..4 {
        deliver(&mut run, 640, 480);
    }
    post(
        &mut run,
        StatusMessage::Error {
            source: String::from("decode_element"),
            detail: String::from("corrupt frame"),
        },
    );
    assert_eq!(
        frame_lines(&run),
        vec!["Frame 1: 640x480", "Frame 2: 640x480", "Frame 3: 640x480", "Frame 4: 640x480"]
    );
    assert_eq!(run.ended, Some((PipelineState::Null, PipelineError::BusError)));
    assert!(run.controller.is_stopped());
}

#[test]
fn two_video_tracks_and_audio_link_the_first_video_track_only() {
    let mut run = begin("multi.mkv");
    assert_eq!(discover(&mut run, "audio/x-raw"), Discovery::Ignored);
    assert_eq!(discover(&mut run, "video/x-raw"), Discovery::Linked);
    assert_eq!(discover(&mut run, "video/x-raw"), Discovery::Ignored);
    let input = run.controller.graph.port(run.sink_handle.input).unwrap();
    assert_eq!(input.peer.map(|p| p.0), Some(4));
    let linked = (3..6)
        .filter(|i| run.controller.graph.is_linked(frame_counter::graph::PortId(*i)))
        .count();
    assert_eq!(linked, 1);
}

#[test]
fn log_lines_and_frame_lines_come_in_the_order_of_events() {
    let mut run = begin("a.mp4");
    post(
        &mut run,
        StatusMessage::StateChanged {
            stage: String::from("src_element"),
            path: String::from("Some(\"/GstPipeline:pipeline0/GstFileSrc:src_element\")"),
            from: PipelineState::Null,
            to: PipelineState::Ready,
            pending: None,
        },
    );
    discover(&mut run, "video/x-raw");
    deliver(&mut run, 16, 8);
    post(&mut run, StatusMessage::Other);
    post(&mut run, StatusMessage::EndOfStream);
    assert_eq!(
        run.lines,
        vec![
            "File arg: a.mp4",
            "State changed from Some(\"/GstPipeline:pipeline0/GstFileSrc:src_element\"): Null -> Ready (VoidPending)",
            "Frame 1: 16x8",
        ]
    );
    assert_eq!(run.ended, Some((PipelineState::Null, PipelineError::EndOfStream)));
}
