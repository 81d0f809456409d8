//! Tests of the single components: composite busy semantics, sensors,
//! book validation and elapsed-time arithmetic.

use fernspielapparat::acts::Actuators;
use fernspielapparat::books::{Book, Sound};
use fernspielapparat::clock::elapsed_millis;
use fernspielapparat::evt::{CompositeResponder, EventPublisher, Responder};
use fernspielapparat::senses::Sensors;
use fernspielapparat::serve::Server;
use fernspielapparat::states::{Input, State};
use fernspielapparat::Error;

fn sound(duration_millis: u64, looping: bool) -> Sound {
    Sound { duration_millis, looping }
}

#[test]
fn composite_busy_until_every_member_done() {
    let state = State::builder().sounds(vec![0, 1]).build();
    let mut actuators = Actuators::new(&None, vec![sound(100, false), sound(250, false)]);
    actuators.transition_to(&state, 0);
    let publisher = EventPublisher::through(&Server::new());
    let composite = CompositeResponder::from(vec![
        Responder::Actuators(actuators),
        Responder::Publisher(publisher),
    ]);
    assert!(!composite.done(0), "both sounds still playing");
    assert!(!composite.done(100), "the slower sound is still playing");
    assert!(!composite.done(249), "the slower sound is still playing");
    assert!(composite.done(250), "every attached responder is done now");
}

#[test]
fn composite_without_members_is_never_busy() {
    let composite = CompositeResponder::from(vec![]);
    assert!(composite.done(0));
}

#[test]
fn cleared_actuators_are_done_immediately() {
    let state = State::builder().sounds(vec![0]).build();
    let mut actuators = Actuators::new(&None, vec![sound(1000, false)]);
    actuators.transition_to(&state, 0);
    assert!(!actuators.done(10));
    actuators.clear();
    assert!(actuators.done(10), "no active sound is left after clearing");
    assert_eq!(actuators.active().len(), 0);
}

#[test]
fn sensors_poll_in_order_and_then_yield_nothing() {
    let mut sensors = Sensors::queued(vec![Input::PickUp, Input::Digit(4)]);
    assert_eq!(sensors.poll(), Some(Input::PickUp));
    assert_eq!(sensors.poll(), Some(Input::Digit(4)));
    assert_eq!(sensors.poll(), None);
    assert_eq!(sensors.poll(), None);

    let mut idle = Sensors::idle();
    assert_eq!(idle.poll(), None);
}

#[test]
fn validate_reports_each_defect() {
    assert_eq!(Book::builder().build().validate(), Err(Error::NoStates));

    let missing_sound = Book::builder()
        .state(State::builder().sounds(vec![0]).build())
        .build();
    assert_eq!(
        missing_sound.validate(),
        Err(Error::BadSoundRef { state: 0, sound: 0 })
    );

    let dangling_input = Book::builder()
        .state(State::builder().input(Input::Digit(0), 3).build())
        .build();
    assert_eq!(
        dangling_input.validate(),
        Err(Error::BadTarget { state: 0, target: 3 })
    );

    let dangling_timeout = Book::builder()
        .state(State::builder().timeout(10, 2).build())
        .build();
    assert_eq!(
        dangling_timeout.validate(),
        Err(Error::BadTarget { state: 0, target: 2 })
    );

    let sound_and_self_loop = Book::builder()
        .sound(sound(5, false))
        .state(State::builder().sounds(vec![0]).end(0).build())
        .build();
    assert_eq!(sound_and_self_loop.validate(), Ok(()));

    assert_eq!(Book::passive().validate(), Ok(()));
}

#[test]
fn elapsed_clamps_a_backwards_clock() {
    assert_eq!(elapsed_millis(0, 0), 0);
    assert_eq!(elapsed_millis(100, 350), 250);
    assert_eq!(elapsed_millis(350, 100), 0);
    assert_eq!(elapsed_millis(0, u64::MAX), u64::MAX);
}
