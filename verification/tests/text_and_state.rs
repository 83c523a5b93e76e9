use frame_counter::controller::{startup_line, state_changed_line};
use frame_counter::error::PipelineError;
use frame_counter::sink::FrameObservation;
use frame_counter::state::{pending_name, PipelineState};
use frame_counter::text::{push_decimal, push_signed_decimal};

fn decimal(n: u64) -> String {
    let mut s = String::new();
    push_decimal(&mut s, n);
    s
}

fn signed(v: i32) -> String {
    let mut s = String::new();
    push_signed_decimal(&mut s, v);
    s
}

#[test]
fn decimal_of_zero_is_one_digit() {
    assert_eq!(decimal(0), "0");
}

#[test]
fn decimal_has_no_leading_zeros() {
    assert_eq!(decimal(7), "7");
    assert_eq!(decimal(10), "10");
    assert_eq!(decimal(640), "640");
    assert_eq!(decimal(1_000_000), "1000000");
}

#[test]
fn decimal_of_largest_counter() {
    assert_eq!(decimal(u64::MAX), "18446744073709551615");
}

#[test]
fn decimal_appends_to_what_is_there() {
    let mut s = String::from("n=");
    push_decimal(&mut s, 42);
    assert_eq!(s, "n=42");
}

#[test]
fn signed_decimal_of_negative_values() {
    assert_eq!(signed(-1), "-1");
    assert_eq!(signed(-480), "-480");
    assert_eq!(signed(i32::MIN), "-2147483648");
}

#[test]
fn signed_decimal_of_positive_values() {
    assert_eq!(signed(0), "0");
    assert_eq!(signed(1920), "1920");
    assert_eq!(signed(i32::MAX), "2147483647");
}

#[test]
fn signed_decimal_agrees_with_std() {
    for v in [-100_000, -11, -10, -9, 0, 9, 10, 11, 99, 100, 101, 65_535] {
        assert_eq!(signed(v), format!("{}", v));
    }
}

#[test]
fn frame_line_has_number_and_dimensions() {
    let obs = FrameObservation { sequence: 1, width: 640, height: 480 };
    assert_eq!(obs.line(), "Frame 1: 640x480");
    let obs = FrameObservation { sequence: 10, width: 1920, height: 1080 };
    assert_eq!(obs.line(), "Frame 10: 1920x1080");
}

#[test]
fn state_changed_line_names_all_three_states() {
    let line = state_changed_line(
        "/pipeline0/src_element",
        PipelineState::Null,
        PipelineState::Ready,
        Some(PipelineState::Playing),
    );
    assert_eq!(line, "State changed from /pipeline0/src_element: Null -> Ready (Playing)");
}

#[test]
fn state_changed_line_without_pending_state() {
    let line = state_changed_line(
        "decode_element",
        PipelineState::Paused,
        PipelineState::Playing,
        None,
    );
    assert_eq!(line, "State changed from decode_element: Paused -> Playing (VoidPending)");
}

#[test]
fn startup_line_echoes_the_path() {
    assert_eq!(startup_line("/tmp/clip.mp4"), "File arg: /tmp/clip.mp4");
    assert_eq!(startup_line(""), "File arg: ");
}

#[test]
fn state_names() {
    assert_eq!(PipelineState::Null.name(), "Null");
    assert_eq!(PipelineState::Ready.name(), "Ready");
    assert_eq!(PipelineState::Paused.name(), "Paused");
    assert_eq!(PipelineState::Playing.name(), "Playing");
    assert_eq!(pending_name(None), "VoidPending");
    assert_eq!(pending_name(Some(PipelineState::Paused)), "Paused");
}

#[test]
fn ranks_follow_the_path() {
    assert_eq!(PipelineState::Null.rank_of(), 0);
    assert_eq!(PipelineState::Ready.rank_of(), 1);
    assert_eq!(PipelineState::Paused.rank_of(), 2);
    assert_eq!(PipelineState::Playing.rank_of(), 3);
}

#[test]
fn only_neighbours_are_adjacent() {
    let all = [
        PipelineState::Null,
        PipelineState::Ready,
        PipelineState::Paused,
        PipelineState::Playing,
    ];
    for (i, a) in all.iter().enumerate() {
        for (j, b) in all.iter().enumerate() {
            let expected = i + 1 == j || j + 1 == i;
            assert_eq!(a.is_adjacent(*b), expected);
        }
    }
}

#[test]
fn stepping_up_visits_every_state() {
    let mut state = PipelineState::Null;
    let mut seen = vec![state];
    while state != PipelineState::Playing {
        state = state.step_toward(PipelineState::Playing);
        seen.push(state);
    }
    assert_eq!(
        seen,
        vec![
            PipelineState::Null,
            PipelineState::Ready,
            PipelineState::Paused,
            PipelineState::Playing
        ]
    );
}

#[test]
fn stepping_down_visits_every_state() {
    let mut state = PipelineState::Playing;
    let mut seen = vec![state];
    while state != PipelineState::Null {
        state = state.step_toward(PipelineState::Null);
        seen.push(state);
    }
    assert_eq!(
        seen,
        vec![
            PipelineState::Playing,
            PipelineState::Paused,
            PipelineState::Ready,
            PipelineState::Null
        ]
    );
}

#[test]
fn stepping_at_the_target_stays() {
    assert_eq!(PipelineState::Paused.step_toward(PipelineState::Paused), PipelineState::Paused);
}

#[test]
fn every_error_kind_has_its_message() {
    assert_eq!(PipelineError::SetupFailure.message(), "Pipeline setup failed");
    assert_eq!(
        PipelineError::LinkInvariantViolation.message(),
        "Src pad could not link with sink"
    );
    assert_eq!(PipelineError::ExtractionFailure.message(), "Frame width or height missing");
    assert_eq!(PipelineError::BusError.message(), "Pipeline bus error");
    assert_eq!(PipelineError::EndOfStream.message(), "EOS");
}
