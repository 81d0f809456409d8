//! Responders: independent reaction handlers fanned out by a composite.
//!
//! A responder is notified whenever the machine enters a state and is
//! queried for whether it is still busy producing output. The closed set
//! of handlers — local actuators and the remote event publisher — is held
//! by a [`CompositeResponder`] in a fixed order; the composite notifies
//! every member in that order and reports busy as long as any member is
//! busy, so an "end" transition waits for the slowest output channel.

use vstd::prelude::*;

use crate::acts::{Actuators, ActuatorsV};
use crate::serve::Server;
use crate::states::{State, StateV};

verus! {

/// The remote half of the responder set: announces each entered state to
/// the external event feed. Its mathematical content is the sequence of
/// state identifiers it has announced.
pub struct EventPublisher {
    published: Vec<String>,
}

/// The mathematical content of an [`EventPublisher`].
#[verifier::ext_equal]
pub ghost struct PublisherV {
    pub published: Seq<Seq<char>>,
}

impl View for EventPublisher {
    type V = PublisherV;

    closed spec fn view(&self) -> PublisherV {
        PublisherV { published: self.published@.map_values(|s: String| s@) }
    }
}

impl EventPublisher {
    /// A publisher bound to the given event feed, with nothing announced
    /// yet.
    pub fn through(server: &Server) -> (r: EventPublisher)
        ensures
            r@ == (PublisherV { published: Seq::<Seq<char>>::empty() }),
    {
        let publisher = EventPublisher { published: Vec::new() };
        proof {
            assert(publisher@.published =~= Seq::<Seq<char>>::empty());
        }
        publisher
    }

    /// Announces entry into `state` by its identifier.
    pub fn transition_to(&mut self, state: &State)
        ensures
            final(self)@ == (PublisherV { published: old(self)@.published.push(state@.id) }),
    {
        self.published.push(state.id().clone());
        proof {
            assert(self@.published =~= old(self)@.published.push(state@.id));
        }
    }

    /// The identifiers announced so far, in order.
    pub fn published(&self) -> (r: &Vec<String>)
        ensures
            r@.map_values(|s: String| s@) == self@.published,
    {
        &self.published
    }
}

/// One reaction handler of the closed set: the local actuators or the
/// remote event publisher.
pub enum Responder {
    Actuators(Actuators),
    Publisher(EventPublisher),
}

/// The mathematical content of a [`Responder`].
#[verifier::ext_equal]
pub ghost enum ResponderV {
    Actuators(ActuatorsV),
    Publisher(PublisherV),
}

impl View for Responder {
    type V = ResponderV;

    open spec fn view(&self) -> ResponderV {
        match self {
            Responder::Actuators(a) => ResponderV::Actuators(a@),
            Responder::Publisher(p) => ResponderV::Publisher(p@),
        }
    }
}

/// The member's own indices are in range.
pub open spec fn member_wf(m: ResponderV) -> bool {
    match m {
        ResponderV::Actuators(a) => a.wf(),
        ResponderV::Publisher(_) => true,
    }
}

/// The member can activate the entry configuration of `s`: an actuator
/// member has every sound `s` references.
pub open spec fn member_accepts(m: ResponderV, s: StateV) -> bool {
    match m {
        ResponderV::Actuators(a) => forall|i: int|
            0 <= i < s.sounds.len() ==> (#[trigger] s.sounds[i]) < a.sounds.len(),
        ResponderV::Publisher(_) => true,
    }
}

/// The member after being notified of entry into `s` at time `now`.
pub open spec fn member_after_enter(m: ResponderV, s: StateV, now: u64) -> ResponderV {
    match m {
        ResponderV::Actuators(a) => ResponderV::Actuators(
            ActuatorsV { active: s.sounds, entered_at: now, ..a },
        ),
        ResponderV::Publisher(p) => ResponderV::Publisher(
            PublisherV { published: p.published.push(s.id) },
        ),
    }
}

/// The member after the exit of a state cleared all output.
pub open spec fn member_after_clear(m: ResponderV) -> ResponderV {
    match m {
        ResponderV::Actuators(a) => ResponderV::Actuators(
            ActuatorsV { active: Seq::<usize>::empty(), ..a },
        ),
        ResponderV::Publisher(p) => ResponderV::Publisher(p),
    }
}

/// Whether the member reports all its output finished at `now`. A
/// publisher is never busy.
pub open spec fn member_done(m: ResponderV, now: u64) -> bool {
    match m {
        ResponderV::Actuators(a) => a.done(now),
        ResponderV::Publisher(_) => true,
    }
}

impl Responder {
    /// Notifies this handler of entry into `state` at time `now`.
    pub fn transition_to(&mut self, state: &State, now: u64)
        requires
            member_accepts(old(self)@, state@),
        ensures
            final(self)@ == member_after_enter(old(self)@, state@, now),
    {
        match self {
            Responder::Actuators(a) => a.transition_to(state, now),
            Responder::Publisher(p) => p.transition_to(state),
        }
    }

    /// Clears this handler's output on state exit.
    pub fn clear(&mut self)
        ensures
            final(self)@ == member_after_clear(old(self)@),
    {
        match self {
            Responder::Actuators(a) => a.clear(),
            Responder::Publisher(_) => (),
        }
    }

    /// Whether this handler has finished all its output at `now`.
    pub fn done(&self, now: u64) -> (r: bool)
        requires
            member_wf(self@),
        ensures
            r == member_done(self@, now),
    {
        match self {
            Responder::Actuators(a) => a.done(now),
            Responder::Publisher(_) => true,
        }
    }

    /// The per-tick refresh; nothing changes in this model.
    pub fn update(&mut self)
        ensures
            final(self)@ == old(self)@,
    {
        match self {
            Responder::Actuators(a) => a.update(),
            Responder::Publisher(_) => (),
        }
    }
}

/// The ordered fan-out over all attached reaction handlers.
pub struct CompositeResponder {
    responders: Vec<Responder>,
}

/// The mathematical content of a [`CompositeResponder`].
#[verifier::ext_equal]
pub ghost struct CompositeV {
    pub members: Seq<ResponderV>,
}

impl View for CompositeResponder {
    type V = CompositeV;

    closed spec fn view(&self) -> CompositeV {
        CompositeV { members: self.responders@.map_values(|r: Responder| r@) }
    }
}

impl CompositeV {
    /// Every member's own indices are in range.
    pub open spec fn wf(self) -> bool {
        forall|j: int| 0 <= j < self.members.len() ==> member_wf(#[trigger] self.members[j])
    }

    /// Every member can activate the entry configuration of `s`.
    pub open spec fn accepts(self, s: StateV) -> bool {
        forall|j: int| 0 <= j < self.members.len() ==> member_accepts(#[trigger] self.members[j], s)
    }

    /// All members report their output finished at `now`; the composite
    /// is busy as long as any single member is busy.
    pub open spec fn done(self, now: u64) -> bool {
        forall|j: int| 0 <= j < self.members.len() ==> member_done(#[trigger] self.members[j], now)
    }

    /// The composite after notifying every member of entry into `s`.
    pub open spec fn after_enter(self, s: StateV, now: u64) -> CompositeV {
        CompositeV { members: self.members.map_values(|m: ResponderV| member_after_enter(m, s, now)) }
    }

    /// The composite after a state exit cleared all output.
    pub open spec fn after_clear(self) -> CompositeV {
        CompositeV { members: self.members.map_values(|m: ResponderV| member_after_clear(m)) }
    }
}

/// Busy semantics of the fan-out: the composite reports busy exactly as
/// long as some member still reports busy; it is done only once every
/// attached responder is done.
pub proof fn lemma_composite_busy_until_all_done(c: CompositeV, now: u64)
    ensures
        !c.done(now) <==> exists|j: int|
            0 <= j < c.members.len() && !member_done(#[trigger] c.members[j], now),
{
}

/// Clearing output and then entering a state leaves the same composite
/// as entering it directly: entry overwrites the whole actuator
/// configuration, and a publisher is not affected by the clearing.
pub proof fn lemma_clear_then_enter(c: CompositeV, s: StateV, now: u64)
    ensures
        c.after_clear().after_enter(s, now) == c.after_enter(s, now),
{
    let lhs = c.after_clear().after_enter(s, now);
    let rhs = c.after_enter(s, now);
    assert forall|j: int| 0 <= j < c.members.len() implies lhs.members[j] == rhs.members[j] by {
        assert(member_after_enter(member_after_clear(c.members[j]), s, now)
            == member_after_enter(c.members[j], s, now));
    }
    assert(lhs.members =~= rhs.members);
    assert(lhs =~= rhs);
}

/// Entering a state the composite accepts keeps every member
/// well-formed: the new active configuration is exactly that state's
/// sound set, which each actuator member has.
pub proof fn lemma_after_enter_wf(c: CompositeV, s: StateV, now: u64)
    requires
        c.accepts(s),
    ensures
        c.after_enter(s, now).wf(),
{
    let after = c.after_enter(s, now);
    assert forall|j: int| 0 <= j < after.members.len() implies member_wf(
        #[trigger] after.members[j],
    ) by {
        assert(member_accepts(c.members[j], s));
    }
}

/// Entering one state does not change which states the composite can
/// activate: the sound resources of every member stay the same.
pub proof fn lemma_after_enter_keeps_accepts(c: CompositeV, s: StateV, now: u64, other: StateV)
    requires
        c.accepts(other),
    ensures
        c.after_enter(s, now).accepts(other),
{
    let after = c.after_enter(s, now);
    assert forall|j: int| 0 <= j < after.members.len() implies member_accepts(
        #[trigger] after.members[j],
        other,
    ) by {
        assert(member_accepts(c.members[j], other));
    }
}

/// Clearing all output keeps every member well-formed: nothing is
/// active afterwards.
pub proof fn lemma_after_clear_wf(c: CompositeV)
    ensures
        c.after_clear().wf(),
{
    let after = c.after_clear();
    assert forall|j: int| 0 <= j < after.members.len() implies member_wf(
        #[trigger] after.members[j],
    ) by {
        assert(after.members[j] == member_after_clear(c.members[j]));
    }
}

/// Clearing all output does not change which states the composite can
/// activate.
pub proof fn lemma_after_clear_keeps_accepts(c: CompositeV, other: StateV)
    requires
        c.accepts(other),
    ensures
        c.after_clear().accepts(other),
{
    let after = c.after_clear();
    assert forall|j: int| 0 <= j < after.members.len() implies member_accepts(
        #[trigger] after.members[j],
        other,
    ) by {
        assert(member_accepts(c.members[j], other));
    }
}

impl CompositeResponder {
    /// A composite over the given handlers, notified in the given order.
    pub fn from(responders: Vec<Responder>) -> (r: CompositeResponder)
        ensures
            r@ == (CompositeV { members: responders@.map_values(|x: Responder| x@) }),
    {
        CompositeResponder { responders }
    }

    /// Notifies every member, in order, of entry into `state` at `now`.
    pub fn transition_to(&mut self, state: &State, now: u64)
        requires
            old(self)@.accepts(state@),
        ensures
            final(self)@ == old(self)@.after_enter(state@, now),
    {
        let ghost orig = self@.members;
        let mut entered: Vec<Responder> = Vec::new();
        while self.responders.len() > 0
            invariant
                forall|k: int| 0 <= k < orig.len() ==> member_accepts(#[trigger] orig[k], state@),
                entered@.len() + self.responders@.len() == orig.len(),
                forall|k: int|
                    0 <= k < entered@.len() ==> (#[trigger] entered@[k])@ == member_after_enter(
                        orig[k],
                        state@,
                        now,
                    ),
                forall|k: int|
                    0 <= k < self.responders@.len() ==> (#[trigger] self.responders@[k])@ == orig[
                        entered@.len() + k
                    ],
            decreases self.responders.len(),
        {
            let mut r = self.responders.remove(0);
            proof {
                assert(r@ == orig[entered@.len() as int]);
                assert(member_accepts(orig[entered@.len() as int], state@));
            }
            r.transition_to(state, now);
            entered.push(r);
        }
        self.responders = entered;
        proof {
            assert(self@.members =~= old(self)@.after_enter(state@, now).members);
        }
    }

    /// Clears every member's output, as on state exit.
    pub fn clear(&mut self)
        ensures
            final(self)@ == old(self)@.after_clear(),
    {
        let ghost orig = self@.members;
        let mut cleared: Vec<Responder> = Vec::new();
        while self.responders.len() > 0
            invariant
                cleared@.len() + self.responders@.len() == orig.len(),
                forall|k: int|
                    0 <= k < cleared@.len() ==> (#[trigger] cleared@[k])@ == member_after_clear(
                        orig[k],
                    ),
                forall|k: int|
                    0 <= k < self.responders@.len() ==> (#[trigger] self.responders@[k])@ == orig[
                        cleared@.len() + k
                    ],
            decreases self.responders.len(),
        {
            let mut r = self.responders.remove(0);
            proof {
                assert(r@ == orig[cleared@.len() as int]);
            }
            r.clear();
            cleared.push(r);
        }
        self.responders = cleared;
        proof {
            assert(self@.members =~= old(self)@.after_clear().members);
        }
    }

    /// Whether every member has finished its output at `now`: the busy
    /// check that gates the "end" transition.
    pub fn done(&self, now: u64) -> (r: bool)
        requires
            self@.wf(),
        ensures
            r == self@.done(now),
    {
        let mut j: usize = 0;
        while j < self.responders.len()
            invariant
                self@.wf(),
                j <= self.responders@.len(),
                forall|k: int| 0 <= k < j ==> member_done(#[trigger] self@.members[k], now),
            decreases self.responders.len() - j,
        {
            proof {
                assert(self@.members[j as int] == self.responders@[j as int]@);
            }
            if !self.responders[j].done(now) {
                return false;
            }
            j += 1;
        }
        true
    }

    /// The per-tick refresh of every member; nothing changes in this
    /// model.
    pub fn update(&mut self)
        ensures
            final(self)@ == old(self)@,
    {
        let ghost orig = self@.members;
        let mut seen: Vec<Responder> = Vec::new();
        while self.responders.len() > 0
            invariant
                seen@.len() + self.responders@.len() == orig.len(),
                forall|k: int| 0 <= k < seen@.len() ==> (#[trigger] seen@[k])@ == orig[k],
                forall|k: int|
                    0 <= k < self.responders@.len() ==> (#[trigger] self.responders@[k])@ == orig[
                        seen@.len() + k
                    ],
            decreases self.responders.len(),
        {
            let mut r = self.responders.remove(0);
            proof {
                assert(r@ == orig[seen@.len() as int]);
            }
            r.update();
            seen.push(r);
        }
        self.responders = seen;
        proof {
            assert(self@.members =~= orig);
        }
    }

    /// The members, for reading the state of the attached handlers.
    pub fn members(&self) -> (r: &Vec<Responder>)
        ensures
            r@.map_values(|x: Responder| x@) == self@.members,
    {
        &self.responders
    }
}

} // verus!
