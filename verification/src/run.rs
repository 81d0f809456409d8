//! The session orchestrator: owns the active book, drives the machine
//! and hot-swaps books atomically.
//!
//! A switch to a new book first builds a complete fresh responder set
//! for it; only when that succeeds are the machine and the stored book
//! replaced. On failure the session — book, machine and all running
//! state — is left exactly as it was, so a malformed story update can
//! never take down a live session.

use vstd::prelude::*;

use crate::acts::{Actuators, ActuatorsV};
use crate::books::{error_witnessed, passive_book, Book, BookV};
use crate::evt::{
    CompositeResponder, CompositeV, EventPublisher, PublisherV, Responder, ResponderV,
};
use crate::machine::{loaded_machine, Machine, MachineV};
use crate::phone::Phone;
use crate::senses::init_sensors;
use crate::serve::Server;
use crate::states::{Input, StateV};
use crate::Error;

verus! {

/// One physical session: the current book (kept alive for its
/// resources), the machine over it, and the stable hardware and feed
/// references wired in at construction.
pub struct Run {
    /// Hold on to the book so its resources are preserved.
    book: Book,
    machine: Machine,
    phone: Option<Phone>,
    server: Option<Server>,
}

/// The mathematical content of a [`Run`].
#[verifier::ext_equal]
pub ghost struct RunV {
    pub book: BookV,
    pub machine: MachineV,
    pub phone: Option<Seq<Input>>,
    pub has_server: bool,
}

impl View for Run {
    type V = RunV;

    closed spec fn view(&self) -> RunV {
        RunV {
            book: self.book@,
            machine: self.machine@,
            phone: match self.phone {
                Some(ref p) => Some(p@),
                None => None,
            },
            has_server: self.server is Some,
        }
    }
}

/// The responder set built for a book: actuators over the book's
/// sounds, plus a publisher when the session has an event feed, in
/// that fixed order, with nothing active or announced yet.
pub open spec fn responders_for(b: BookV, has_server: bool) -> CompositeV {
    let actuators = ResponderV::Actuators(
        ActuatorsV { sounds: b.sounds, active: Seq::<usize>::empty(), entered_at: 0 },
    );
    let publisher = ResponderV::Publisher(PublisherV { published: Seq::<Seq<char>>::empty() });
    CompositeV {
        members: if has_server {
            seq![actuators, publisher]
        } else {
            seq![actuators]
        },
    }
}

/// The machine's responder set has the shape built for `b`: one
/// actuator member over exactly the book's sounds, and a publisher
/// after it exactly when the session has an event feed.
pub open spec fn responder_matches_book(c: CompositeV, b: BookV, has_server: bool) -> bool {
    &&& c.members.len() == (if has_server {
        2int
    } else {
        1int
    })
    &&& c.members[0] matches ResponderV::Actuators(a) && a.sounds == b.sounds
    &&& has_server ==> c.members[1] is Publisher
}

/// The sensor queue a session starts with: the phone's pending symbols,
/// or nothing without a phone.
pub open spec fn initial_sensor_queue(phone: Option<Seq<Input>>) -> Seq<Input> {
    match phone {
        Some(q) => q,
        None => Seq::<Input>::empty(),
    }
}

/// The session a fresh construction over book `b` yields.
pub open spec fn initial_run(b: BookV, phone: Option<Seq<Input>>, has_server: bool, now: u64) -> RunV {
    RunV {
        book: b,
        machine: loaded_machine(
            initial_sensor_queue(phone),
            responders_for(b, has_server),
            b.states,
            now,
        ),
        phone,
        has_server,
    }
}

impl RunV {
    /// The machine is well-formed, runs exactly the stored book's
    /// states, and its responder set is the one built for that book.
    pub open spec fn wf(self) -> bool {
        &&& self.machine.wf()
        &&& self.machine.states == self.book.states
        &&& responder_matches_book(self.machine.responder, self.book, self.has_server)
    }
}

/// The responder set built for a well-formed book is well-formed and
/// can activate every state of that book.
proof fn lemma_responders_for_ok(b: BookV, has_server: bool)
    requires
        b.wf(),
    ensures
        responders_for(b, has_server).wf(),
        forall|i: int|
            0 <= i < b.states.len() ==> responders_for(b, has_server).accepts(
                #[trigger] b.states[i],
            ),
        responder_matches_book(responders_for(b, has_server), b, has_server),
{
    let c = responders_for(b, has_server);
    assert forall|i: int| 0 <= i < b.states.len() implies c.accepts(#[trigger] b.states[i]) by {
        assert(b.states[i].wf(b.states.len() as int, b.sounds.len() as int));
        assert forall|j: int| 0 <= j < c.members.len() implies crate::evt::member_accepts(
            #[trigger] c.members[j],
            b.states[i],
        ) by {
            if j == 0 {
                assert(b.states[i].sounds_wf(b.sounds.len() as int));
            }
        }
    }
}

/// Notifying the responder set of a state entry does not change its
/// shape: the actuator member keeps the book's sounds and the
/// publisher stays a publisher.
proof fn lemma_matches_after_enter(c: CompositeV, b: BookV, has_server: bool, s: StateV, now: u64)
    requires
        responder_matches_book(c, b, has_server),
    ensures
        responder_matches_book(c.after_enter(s, now), b, has_server),
{
}

/// One tick never changes the shape of the responder set either: it at
/// most notifies it of one state entry.
proof fn lemma_matches_after_update(m: MachineV, b: BookV, has_server: bool, now: u64)
    requires
        responder_matches_book(m.responder, b, has_server),
    ensures
        responder_matches_book(m.after_update(now).responder, b, has_server),
{
    if m.running() {
        match m.resolved(now) {
            Some(target) => lemma_matches_after_enter(
                m.responder,
                b,
                has_server,
                m.states[target as int],
                now,
            ),
            None => (),
        }
    }
}

impl Run {
    /// Makes the initial run, initializing the sensors and running the
    /// given optional book from time `now`.
    ///
    /// If `None` is passed, a passive book is used until the next book
    /// switch. Construction fails exactly when the book is not
    /// well-formed, and then produces no run at all.
    pub fn new(book: Option<Book>, phone: Option<Phone>, server: Option<Server>, now: u64) -> (r:
        Result<Run, Error>)
        ensures
            ({
                let b = match book {
                    Some(ref given) => given@,
                    None => passive_book(),
                };
                let phone_queue = match phone {
                    Some(ref p) => Some(p@),
                    None => None::<Seq<Input>>,
                };
                &&& r is Ok <==> b.wf()
                &&& (r matches Ok(run) ==> run@ == initial_run(
                    b,
                    phone_queue,
                    server is Some,
                    now,
                ) && run@.wf())
                &&& (r matches Err(e) ==> error_witnessed(b, e))
            }),
    {
        let book = match book {
            Some(given) => given,
            None => Book::passive(),
        };
        let sensors = init_sensors(&phone);
        let responder = match make_responder(&phone, &server, &book) {
            Ok(responder) => responder,
            Err(e) => {
                return Err(e);
            },
        };
        proof {
            lemma_responders_for_ok(book@, server is Some);
        }
        let machine = Machine::new(sensors, responder, book.states(), now);
        let run = Run { book, machine, phone, server };
        proof {
            lemma_matches_after_enter(
                responders_for(run@.book, run@.has_server),
                run@.book,
                run@.has_server,
                run@.book.states[0],
                now,
            );
            assert(run@ =~= initial_run(run@.book, run@.phone, run@.has_server, now));
        }
        Ok(run)
    }

    /// Keeps the current book open, but resets all actuators and
    /// starts over with the initial state at time `now`.
    pub fn reset(&mut self, now: u64)
        requires
            old(self)@.wf(),
        ensures
            final(self)@ == (RunV {
                machine: old(self)@.machine.after_transition(0, now),
                ..old(self)@
            }),
            final(self)@.wf(),
    {
        self.machine.reset(now);
        proof {
            lemma_matches_after_enter(
                old(self)@.machine.responder,
                old(self)@.book,
                old(self)@.has_server,
                old(self)@.machine.states[0],
                now,
            );
            assert(final(self)@ =~= (RunV {
                machine: old(self)@.machine.after_transition(0, now),
                ..old(self)@
            }));
        }
    }

    /// Continues evaluating the book at time `now`.
    ///
    /// Returns `false` when a terminal state is current, otherwise
    /// `true`.
    ///
    /// Depending on sensors, one transition may or may not be
    /// performed. Any additional transition only takes effect on the
    /// next tick, even if the conditions are met right away.
    pub fn tick(&mut self, now: u64) -> (r: bool)
        requires
            old(self)@.wf(),
        ensures
            final(self)@ == (RunV {
                machine: old(self)@.machine.after_update(now),
                ..old(self)@
            }),
            final(self)@.wf(),
            r == final(self)@.machine.running(),
    {
        let r = self.machine.update(now);
        proof {
            lemma_matches_after_update(
                old(self)@.machine,
                old(self)@.book,
                old(self)@.has_server,
                now,
            );
            assert(final(self)@ =~= (RunV {
                machine: old(self)@.machine.after_update(now),
                ..old(self)@
            }));
        }
        r
    }

    /// Consumes the given book and starts running it from the
    /// beginning at time `now`, resetting any remaining actuator
    /// state. The sensors are kept.
    ///
    /// Any previously consumed book is dropped after the switch.
    ///
    /// If the new book is not well-formed — it references non-existing
    /// sounds or states — the switch reports the defect and the
    /// previous book, machine and running state remain in place,
    /// completely unchanged.
    pub fn switch(&mut self, book: Book, now: u64) -> (r: Result<(), Error>)
        requires
            old(self)@.wf(),
        ensures
            r is Ok <==> book@.wf(),
            r is Ok ==> final(self)@ == (RunV {
                book: book@,
                machine: loaded_machine(
                    old(self)@.machine.sensors,
                    responders_for(book@, old(self)@.has_server),
                    book@.states,
                    now,
                ),
                ..old(self)@
            }) && final(self)@.wf(),
            r matches Err(e) ==> final(self)@ == old(self)@ && error_witnessed(book@, e),
    {
        // Build the complete new responder set first; a failure leaves
        // the running session untouched.
        let responders = match make_responder(&self.phone, &self.server, &book) {
            Ok(responders) => responders,
            Err(e) => {
                return Err(e);
            },
        };
        proof {
            lemma_responders_for_ok(book@, old(self)@.has_server);
        }
        // Commit: overwrite and reset the machine
        self.machine.load(responders, book.states(), now);
        // and keep the book, as it may hold materialized resources.
        self.book = book;
        proof {
            lemma_matches_after_enter(
                responders_for(self@.book, self@.has_server),
                self@.book,
                self@.has_server,
                self@.book.states[0],
                now,
            );
            assert(final(self)@ =~= (RunV {
                book: self@.book,
                machine: loaded_machine(
                    old(self)@.machine.sensors,
                    responders_for(self@.book, old(self)@.has_server),
                    self@.book.states,
                    now,
                ),
                ..old(self)@
            }));
        }
        Ok(())
    }

    /// The book the session is running.
    pub fn book(&self) -> (r: &Book)
        ensures
            r@ == self@.book,
    {
        &self.book
    }

    /// The machine driving the session, for observing its state.
    pub fn machine(&self) -> (r: &Machine)
        ensures
            r@ == self@.machine,
    {
        &self.machine
    }
}

/// Builds the responder set for a book: actuators over the book's
/// sounds and, when an event feed is present, a publisher bound to it.
/// Fails exactly when the book is not well-formed, reporting a defect
/// that is really present; then no responder set is produced.
fn make_responder(phone: &Option<Phone>, server: &Option<Server>, book: &Book) -> (r: Result<
    CompositeResponder,
    Error,
>)
    ensures
        r is Ok <==> book@.wf(),
        r matches Ok(c) ==> c@ == responders_for(book@, *server is Some),
        r matches Err(e) ==> error_witnessed(book@, e),
{
    if let Err(e) = book.validate() {
        return Err(e);
    }
    let mut responders: Vec<Responder> = Vec::new();

    let book_sounds = book.sounds();
    let mut sounds: Vec<crate::books::Sound> = Vec::new();
    let mut i: usize = 0;
    while i < book_sounds.len()
        invariant
            i <= book_sounds.len(),
            sounds@ == book_sounds@.take(i as int),
        decreases book_sounds.len() - i,
    {
        sounds.push(book_sounds[i]);
        i += 1;
        proof {
            assert(sounds@ =~= book_sounds@.take(i as int));
        }
    }
    proof {
        assert(book_sounds@.take(book_sounds@.len() as int) =~= book_sounds@);
    }
    let actuators = Actuators::new(phone, sounds);
    responders.push(Responder::Actuators(actuators));

    if let Some(server) = server.as_ref() {
        let publisher = EventPublisher::through(server);
        responders.push(Responder::Publisher(publisher));
    }

    let composite = CompositeResponder::from(responders);
    proof {
        assert(composite@.members =~= responders_for(book@, *server is Some).members);
        assert(composite@ =~= responders_for(book@, *server is Some));
    }
    Ok(composite)
}

} // verus!
