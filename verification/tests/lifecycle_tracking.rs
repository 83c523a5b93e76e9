use frame_counter::graph::{Graph, StageId};
use frame_counter::state::PipelineState;

use frame_counter::state::PipelineState::{Null, Paused, Playing, Ready};

fn climb(g: &mut Graph, stage: StageId, seen: &mut Vec<PipelineState>) {
    for (from, to) in [(Null, Ready), (Ready, Paused), (Paused, Playing)] {
        assert!(g.observe_state_changed(stage, from, to));
        seen.push(g.current());
    }
}

fn descend(g: &mut Graph, stage: StageId, seen: &mut Vec<PipelineState>) {
    for (from, to) in [(Playing, Paused), (Paused, Ready), (Ready, Null)] {
        assert!(g.observe_state_changed(stage, from, to));
        seen.push(g.current());
    }
}

fn dedup(seen: &[PipelineState]) -> Vec<PipelineState> {
    let mut out: Vec<PipelineState> = Vec::new();
    for s in seen {
        if out.last() != Some(s) {
            out.push(*s);
        }
    }
    out
}

#[test]
fn command_sets_the_target_and_moves_nothing() {
    let mut w = Graph::wire(String::from("x"));
    w.graph.command(Playing);
    assert_eq!(w.graph.target(), Playing);
    assert_eq!(w.graph.current(), Null);
    for i in 0..3 {
        assert_eq!(w.graph.stage(StageId(i)).unwrap().state, Null);
    }
}

#[test]
fn aggregate_waits_for_the_slowest_stage() {
    let mut w = Graph::wire(String::from("x"));
    w.graph.command(Playing);
    assert!(w.graph.observe_state_changed(StageId(0), Null, Ready));
    assert_eq!(w.graph.current(), Null);
    assert!(w.graph.observe_state_changed(StageId(1), Null, Ready));
    assert_eq!(w.graph.current(), Null);
    assert!(w.graph.observe_state_changed(StageId(2), Null, Ready));
    assert_eq!(w.graph.current(), Ready);
}

#[test]
fn startup_walks_null_ready_paused_playing() {
    let mut w = Graph::wire(String::from("x"));
    w.graph.command(Playing);
    let mut seen = vec![w.graph.current()];
    climb(&mut w.graph, StageId(2), &mut seen);
    climb(&mut w.graph, StageId(0), &mut seen);
    climb(&mut w.graph, StageId(1), &mut seen);
    assert_eq!(dedup(&seen), vec![Null, Ready, Paused, Playing]);
    assert_eq!(w.graph.current(), Playing);
}

#[test]
fn teardown_walks_the_same_states_backwards() {
    let mut w = Graph::wire(String::from("x"));
    w.graph.command(Playing);
    let mut seen = Vec::new();
    for i in 0..3 {
        climb(&mut w.graph, StageId(i), &mut seen);
    }
    w.graph.command(Null);
    let mut seen = vec![w.graph.current()];
    descend(&mut w.graph, StageId(1), &mut seen);
    descend(&mut w.graph, StageId(2), &mut seen);
    descend(&mut w.graph, StageId(0), &mut seen);
    assert_eq!(dedup(&seen), vec![Playing, Paused, Ready, Null]);
}

#[test]
fn every_move_of_the_aggregate_is_to_a_neighbour() {
    let mut w = Graph::wire(String::from("x"));
    w.graph.command(Playing);
    let mut seen = vec![w.graph.current()];
    climb(&mut w.graph, StageId(0), &mut seen);
    climb(&mut w.graph, StageId(1), &mut seen);
    w.graph.command(Null);
    seen.push(w.graph.current());
    descend(&mut w.graph, StageId(0), &mut seen);
    climb(&mut w.graph, StageId(2), &mut seen);
    descend(&mut w.graph, StageId(1), &mut seen);
    descend(&mut w.graph, StageId(2), &mut seen);
    for pair in seen.windows(2) {
        assert!(pair[0] == pair[1] || pair[0].is_adjacent(pair[1]));
    }
}

#[test]
fn report_that_skips_a_state_is_not_taken() {
    let mut w = Graph::wire(String::from("x"));
    w.graph.command(Playing);
    assert!(!w.graph.observe_state_changed(StageId(0), Null, Paused));
    assert!(!w.graph.observe_state_changed(StageId(0), Null, Playing));
    assert!(!w.graph.observe_state_changed(StageId(0), Null, Null));
    assert_eq!(w.graph.stage(StageId(0)).unwrap().state, Null);
    assert_eq!(w.graph.current(), Null);
}

#[test]
fn report_from_a_state_the_stage_is_not_in_is_not_taken() {
    let mut w = Graph::wire(String::from("x"));
    w.graph.command(Playing);
    assert!(!w.graph.observe_state_changed(StageId(0), Ready, Paused));
    assert_eq!(w.graph.stage(StageId(0)).unwrap().state, Null);
}

#[test]
fn report_of_an_unknown_stage_is_not_taken() {
    let mut w = Graph::wire(String::from("x"));
    w.graph.command(Playing);
    assert!(!w.graph.observe_state_changed(StageId(3), Null, Ready));
    assert_eq!(w.graph.current(), Null);
}

#[test]
fn without_a_command_the_aggregate_stays() {
    let mut w = Graph::wire(String::from("x"));
    let mut seen = Vec::new();
    for i in 0..3 {
        climb(&mut w.graph, StageId(i), &mut seen);
    }
    assert_eq!(dedup(&seen), vec![Null]);
}
