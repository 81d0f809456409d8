//! Tests of the session orchestrator: construction, reset, hot swap and
//! the timeout fallback.

use fernspielapparat::books::{Book, Sound};
use fernspielapparat::evt::Responder;
use fernspielapparat::phone::Phone;
use fernspielapparat::run::Run;
use fernspielapparat::serve::Server;
use fernspielapparat::states::{Input, State};
use fernspielapparat::Error;

fn speech(duration_millis: u64) -> Sound {
    Sound { duration_millis, looping: false }
}

fn music_non_looping(duration_millis: u64) -> Sound {
    Sound { duration_millis, looping: false }
}

/// One sound in state 0, then an end transition into a terminal state.
fn one_sound_book(prefix: &str, duration_millis: u64) -> Book {
    Book::builder()
        .sound(speech(duration_millis))
        .state(
            State::builder()
                .id(&format!("{} State with index 0", prefix))
                .name(&format!("{} State with index 0", prefix))
                .sounds(vec![0])
                .end(1)
                .build(),
        )
        .state(
            State::builder()
                .id(&format!("{} State with index 1", prefix))
                .name(&format!("{} State with index 1", prefix))
                .terminal(true)
                .build(),
        )
        .build()
}

fn two_sound_book(prefix: &str, sound: Sound) -> Book {
    Book::builder()
        .sound(sound)
        .sound(sound)
        .state(
            State::builder()
                .id(&format!("{} State with index 0", prefix))
                .name(&format!("{} State with index 0", prefix))
                .sounds(vec![0, 1])
                .end(1)
                .build(),
        )
        .state(
            State::builder()
                .id(&format!("{} State with index 1", prefix))
                .name(&format!("{} State with index 1", prefix))
                .terminal(true)
                .build(),
        )
        .build()
}

/// Ticks once per millisecond until the run reports not running, and
/// returns how much time passed since `start`.
fn run_until_terminal(run: &mut Run, start: u64) -> u64 {
    let mut now = start;
    while run.tick(now) {
        now += 1;
        assert!(now < start + 1_000_000, "run should have reached a terminal state");
    }
    now - start
}

#[test]
fn single_sound_book_runs_until_the_sound_ends() {
    let book = one_sound_book("Solo run", 250);
    let mut run = Run::new(Some(book), None, None, 0).unwrap();
    for now in 0..250 {
        assert!(run.tick(now), "still busy playing the sound at {} ms", now);
    }
    assert!(!run.tick(250), "sound naturally finished, terminal state entered");
    assert_eq!(
        run.machine().current_state().id().as_str(),
        "Solo run State with index 1"
    );
    assert!(!run.tick(251), "stays terminal");
}

#[test]
fn switch_to_new_speech() {
    // given
    let old_text_duration = 300;
    let book_with_one_sound = one_sound_book("Book 1", old_text_duration);
    let new_text_duration = 700;
    let book_with_two_sounds = two_sound_book("Book 2", speech(new_text_duration));

    // when
    let mut run = Run::new(Some(book_with_one_sound), None, None, 0).unwrap();
    let initial_sounds = run.book().sounds().to_vec();
    let initially_busy = run.tick(0);
    run.switch(book_with_two_sounds, 1).unwrap();
    let busy_after_switch = run.tick(1);
    let new_sounds = run.book().sounds().to_vec();
    let evaluation_time = run_until_terminal(&mut run, 1);

    // then
    assert!(
        initially_busy,
        "run tick already returns false form tick but expected to be busy playing music"
    );
    assert!(
        busy_after_switch,
        "run tick already returns false after switch but expected to be busy playing music"
    );
    assert_ne!(initial_sounds, new_sounds);
    assert_eq!(initial_sounds.len(), 1);
    assert_eq!(new_sounds.len(), 2);
    // evaluation time: the new speech plays fully from the switch
    assert_eq!(evaluation_time, new_text_duration);
}

#[test]
fn switch_to_new_music_non_looping() {
    // given
    let book_with_one_sound = one_sound_book("Book 1", 450);
    let scream_duration = 1_150;
    let book_with_two_sounds = two_sound_book("Book 2", music_non_looping(scream_duration));

    // when
    let mut run = Run::new(Some(book_with_one_sound), None, None, 0).unwrap();
    let initial_sounds = run.book().sounds().to_vec();
    let initially_busy = run.tick(0);
    run.switch(book_with_two_sounds, 2).unwrap();
    let busy_after_switch = run.tick(2);
    let new_sounds = run.book().sounds().to_vec();
    let evaluation_time = run_until_terminal(&mut run, 2);

    // then
    assert!(
        initially_busy,
        "run tick already returns false form tick but expected to be busy playing music"
    );
    assert!(
        busy_after_switch,
        "run tick already returns false after switch but expected to be busy playing music"
    );
    assert_ne!(initial_sounds, new_sounds);
    assert_eq!(initial_sounds.len(), 1);
    assert_eq!(new_sounds.len(), 2);
    assert_eq!(evaluation_time, scream_duration);
}

#[test]
fn hot_swap_replaces_active_sounds_wholesale() {
    let book_a = one_sound_book("A", 10_000);
    let book_b = two_sound_book("B", speech(500));

    let mut run = Run::new(Some(book_a), None, None, 0).unwrap();
    assert!(run.tick(0), "book A should still be playing");
    run.switch(book_b, 100).unwrap();

    // the active configuration now reflects book B's two sounds, never
    // a mix of A and B
    let members = run.machine().responder().members();
    match &members[0] {
        Responder::Actuators(a) => assert_eq!(a.active().as_slice(), &[0, 1]),
        _ => panic!("expected actuators first"),
    }
    assert_eq!(run.book().sounds().len(), 2);
    assert_eq!(
        run.machine().current_state().id().as_str(),
        "B State with index 0"
    );
    assert!(run.tick(100), "book B should be busy right after the switch");
    // terminal exactly when book B's sounds are over
    assert!(run.tick(599));
    assert!(!run.tick(600));
}

#[test]
fn failed_switch_changes_nothing() {
    let book_a = one_sound_book("A", 400);
    // book B references sound 5, which it does not have
    let book_b = Book::builder()
        .sound(speech(100))
        .state(State::builder().id("broken").sounds(vec![5]).end(1).build())
        .state(State::builder().id("end").terminal(true).build())
        .build();

    let mut run = Run::new(Some(book_a), None, None, 0).unwrap();
    assert!(run.tick(0));

    let rejected = run.switch(book_b, 10);
    assert_eq!(rejected, Err(Error::BadSoundRef { state: 0, sound: 5 }));

    // the previous book, state and actuator configuration are intact
    assert_eq!(run.book().sounds().len(), 1);
    assert_eq!(
        run.machine().current_state().id().as_str(),
        "A State with index 0"
    );
    let members = run.machine().responder().members();
    match &members[0] {
        Responder::Actuators(a) => assert_eq!(a.active().as_slice(), &[0]),
        _ => panic!("expected actuators first"),
    }
    // and the session keeps running exactly as before: terminal once
    // book A's sound is over
    assert!(run.tick(399));
    assert!(!run.tick(400));
}

#[test]
fn timeout_fallback_fires_without_input_or_completion() {
    // a state with a looping sound that never completes, no input and
    // no end transition, but a timeout of 500 ms
    let book = Book::builder()
        .sound(Sound { duration_millis: 10, looping: true })
        .state(
            State::builder()
                .id("waiting")
                .sounds(vec![0])
                .timeout(500, 1)
                .build(),
        )
        .state(State::builder().id("fallback").terminal(true).build())
        .build();

    let mut run = Run::new(Some(book), None, None, 0).unwrap();
    assert!(run.tick(0));
    assert!(run.tick(499), "timeout must not fire early");
    assert!(!run.tick(500), "timeout must fire once 500 ms elapsed");
    assert_eq!(run.machine().current_state().id().as_str(), "fallback");
}

#[test]
fn empty_book_is_rejected() {
    let empty = Book::builder().build();
    let rejected = Run::new(Some(empty), None, None, 0);
    assert!(matches!(rejected, Err(Error::NoStates)));
}

#[test]
fn dangling_transition_target_is_rejected() {
    let book = Book::builder()
        .state(State::builder().id("start").end(7).build())
        .build();
    let rejected = Run::new(Some(book), None, None, 0);
    assert!(matches!(
        rejected,
        Err(Error::BadTarget { state: 0, target: 7 })
    ));
}

#[test]
fn run_without_book_is_passive_and_keeps_running() {
    let mut run = Run::new(None, None, None, 0).unwrap();
    assert_eq!(run.book().sounds().len(), 0);
    for now in [0, 1000, 1_000_000] {
        assert!(run.tick(now), "a passive book has no terminal state");
    }
}

#[test]
fn reset_restarts_the_current_book() {
    let book = one_sound_book("Solo", 200);
    let mut run = Run::new(Some(book), None, None, 0).unwrap();
    assert!(run.tick(0));
    assert!(!run.tick(200), "sound over, terminal state reached");

    run.reset(300);
    assert_eq!(
        run.machine().current_state().id().as_str(),
        "Solo State with index 0"
    );
    assert!(run.tick(300), "running again from state 0");
    assert!(run.tick(499), "sound plays anew from the reset");
    assert!(!run.tick(500));
}

#[test]
fn phone_input_drives_the_session() {
    let book = Book::builder()
        .state(State::builder().id("menu").input(Input::Digit(7), 1).build())
        .state(State::builder().id("picked").terminal(true).build())
        .build();
    let phone = Phone::with_pending(vec![Input::Digit(7)]);
    let mut run = Run::new(Some(book), Some(phone), None, 0).unwrap();
    assert!(!run.tick(1));
    assert_eq!(run.machine().current_state().id().as_str(), "picked");
}

#[test]
fn publisher_announces_entered_states() {
    let book = Book::builder()
        .state(State::builder().id("first").timeout(100, 1).build())
        .state(State::builder().id("second").terminal(true).build())
        .build();
    let mut run = Run::new(Some(book), None, Some(Server::new()), 0).unwrap();
    assert!(!run.tick(100));

    let members = run.machine().responder().members();
    assert_eq!(members.len(), 2);
    match &members[1] {
        Responder::Publisher(p) => {
            let published: Vec<&str> = p.published().iter().map(|s| s.as_str()).collect();
            assert_eq!(published, vec!["first", "second"]);
        }
        _ => panic!("expected the publisher after the actuators"),
    }
}
