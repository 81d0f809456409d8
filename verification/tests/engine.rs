//! Tests of the transition engine: resolver priority, single-transition
//! ticks, terminal idempotence and input handling.

use fernspielapparat::acts::Actuators;
use fernspielapparat::books::Sound;
use fernspielapparat::evt::{CompositeResponder, Responder};
use fernspielapparat::machine::Machine;
use fernspielapparat::senses::Sensors;
use fernspielapparat::states::{Input, State};

fn sound(duration_millis: u64, looping: bool) -> Sound {
    Sound { duration_millis, looping }
}

fn responder_over(sounds: Vec<Sound>) -> CompositeResponder {
    let actuators = Actuators::new(&None, sounds);
    CompositeResponder::from(vec![Responder::Actuators(actuators)])
}

#[test]
fn timeout_beats_end_transition() {
    // state 0: a sound that is long over, an "end" transition to 1 and
    // a due timeout to 2 compete; the timeout must win.
    let states = vec![
        State::builder()
            .id("both due")
            .sounds(vec![0])
            .end(1)
            .timeout(100, 2)
            .build(),
        State::builder().id("end target").terminal(true).build(),
        State::builder().id("timeout target").terminal(true).build(),
    ];
    let mut machine = Machine::new(Sensors::idle(), responder_over(vec![sound(10, false)]), states, 0);
    machine.update(100);
    assert_eq!(machine.current_state().id().as_str(), "timeout target");
}

#[test]
fn at_most_one_transition_per_tick() {
    // 0 -> 1 by timeout, 1 -> 2 by end; both conditions hold at the
    // same instant, but one tick moves exactly one edge.
    let states = vec![
        State::builder().id("start").timeout(50, 1).build(),
        State::builder().id("middle").end(2).build(),
        State::builder().id("last").terminal(true).build(),
    ];
    let mut machine = Machine::new(Sensors::idle(), responder_over(vec![]), states, 0);
    let running = machine.update(50);
    assert!(running);
    assert_eq!(machine.current_state().id().as_str(), "middle");
    let running = machine.update(50);
    assert!(!running);
    assert_eq!(machine.current_state().id().as_str(), "last");
}

#[test]
fn terminal_ticks_are_idempotent() {
    let states = vec![
        State::builder().id("only").sounds(vec![0]).terminal(true).build(),
    ];
    let mut machine = Machine::new(Sensors::idle(), responder_over(vec![sound(10, false)]), states, 0);
    for now in [0, 5, 1000, 100000] {
        assert!(!machine.update(now));
        assert_eq!(machine.current_state().id().as_str(), "only");
        // actuator output stays exactly as entry into the terminal
        // state left it
        let members = machine.responder().members();
        match &members[0] {
            Responder::Actuators(a) => assert_eq!(a.active().as_slice(), &[0]),
            _ => panic!("expected actuators"),
        }
    }
}

#[test]
fn input_transition_fires_on_mapped_symbol() {
    let states = vec![
        State::builder().id("menu").input(Input::Digit(3), 1).build(),
        State::builder().id("chosen").terminal(true).build(),
    ];
    let sensors = Sensors::queued(vec![Input::Digit(3)]);
    let mut machine = Machine::new(sensors, responder_over(vec![]), states, 0);
    assert!(!machine.update(1));
    assert_eq!(machine.current_state().id().as_str(), "chosen");
}

#[test]
fn unmapped_symbol_is_consumed_without_transition() {
    let states = vec![
        State::builder().id("menu").input(Input::Digit(3), 1).build(),
        State::builder().id("chosen").terminal(true).build(),
    ];
    let sensors = Sensors::queued(vec![Input::HangUp, Input::Digit(3)]);
    let mut machine = Machine::new(sensors, responder_over(vec![]), states, 0);
    // the hang-up is polled and consumed, but maps to nothing
    assert!(machine.update(1));
    assert_eq!(machine.current_state().id().as_str(), "menu");
    // the digit is polled on the next tick
    assert!(!machine.update(2));
    assert_eq!(machine.current_state().id().as_str(), "chosen");
}

#[test]
fn end_transition_waits_for_slowest_sound() {
    let states = vec![
        State::builder().id("playing").sounds(vec![0, 1]).end(1).build(),
        State::builder().id("done").terminal(true).build(),
    ];
    let sounds = vec![sound(100, false), sound(300, false)];
    let mut machine = Machine::new(Sensors::idle(), responder_over(sounds), states, 0);
    assert!(machine.update(100)); // short sound over, long one still busy
    assert_eq!(machine.current_state().id().as_str(), "playing");
    assert!(!machine.update(300)); // both over now
    assert_eq!(machine.current_state().id().as_str(), "done");
}

#[test]
fn looping_sound_never_completes() {
    let states = vec![
        State::builder().id("loop").sounds(vec![0]).end(1).build(),
        State::builder().id("after").terminal(true).build(),
    ];
    let mut machine = Machine::new(Sensors::idle(), responder_over(vec![sound(10, true)]), states, 0);
    for now in [0, 10, 10000, u64::MAX] {
        assert!(machine.update(now));
        assert_eq!(machine.current_state().id().as_str(), "loop");
    }
}

#[test]
fn resolver_exact_transitions() {
    let state = State::builder()
        .timeout(500, 7)
        .end(3)
        .input(Input::Digit(1), 4)
        .input(Input::Digit(2), 5)
        .build();
    assert_eq!(state.transition_for_timeout(499), None);
    assert_eq!(state.transition_for_timeout(500), Some(7));
    assert_eq!(state.transition_end(), Some(3));
    assert_eq!(state.transition_for_input(Input::Digit(1)), Some(4));
    assert_eq!(state.transition_for_input(Input::Digit(2)), Some(5));
    assert_eq!(state.transition_for_input(Input::Digit(9)), None);
    assert_eq!(state.transition_for_input(Input::PickUp), None);
}

#[test]
fn first_matching_input_entry_decides() {
    let state = State::builder()
        .input(Input::Digit(1), 4)
        .input(Input::Digit(1), 5)
        .build();
    assert_eq!(state.transition_for_input(Input::Digit(1)), Some(4));
}
