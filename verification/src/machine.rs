//! The state transition engine, modeled after a Mealy machine.
//!
//! One call of [`Machine::update`] is one tick: if the current state is
//! terminal nothing happens at all; otherwise the machine senses — takes
//! the single transition resolved from timeout, output completion and
//! polled input, in that strict priority — and then refreshes the
//! actuators. Sensors are polled at most once per tick, and only when
//! neither a timeout nor a completion fired first.

use vstd::prelude::*;

use crate::clock::{elapsed_millis, spec_elapsed};
use crate::evt::{
    lemma_after_clear_keeps_accepts, lemma_after_clear_wf, lemma_after_enter_keeps_accepts,
    lemma_after_enter_wf, lemma_clear_then_enter, CompositeResponder, CompositeV,
};
use crate::senses::Sensors;
use crate::states::{resolve, state_views, Input, State, StateV};

verus! {

/// The authoritative transition engine: the active state graph, the
/// index of the current state, when it was entered, the polled sensors
/// and the responder fan-out that output goes to.
pub struct Machine {
    sensors: Sensors,
    responder: CompositeResponder,
    states: Vec<State>,
    current_state_idx: usize,
    last_enter_time: u64,
}

/// The mathematical content of a [`Machine`].
#[verifier::ext_equal]
pub ghost struct MachineV {
    pub states: Seq<StateV>,
    pub current: usize,
    pub last_enter: u64,
    pub sensors: Seq<Input>,
    pub responder: CompositeV,
}

impl View for Machine {
    type V = MachineV;

    closed spec fn view(&self) -> MachineV {
        MachineV {
            states: state_views(self.states@),
            current: self.current_state_idx,
            last_enter: self.last_enter_time,
            sensors: self.sensors@,
            responder: self.responder@,
        }
    }
}

/// The machine a fresh state graph and responder set start as: state 0
/// is current, was entered at `now`, and the responders were notified
/// of its entry.
pub open spec fn loaded_machine(
    sensors: Seq<Input>,
    responder: CompositeV,
    states: Seq<StateV>,
    now: u64,
) -> MachineV {
    MachineV {
        states,
        current: 0,
        last_enter: now,
        sensors,
        responder: responder.after_enter(states[0], now),
    }
}

impl MachineV {
    /// The state the machine is in.
    pub open spec fn current_state(self) -> StateV {
        self.states[self.current as int]
    }

    /// The machine is running as long as the current state is not
    /// terminal.
    pub open spec fn running(self) -> bool {
        !self.current_state().terminal
    }

    /// The machine is well-formed: there is a state, the current index
    /// is valid, every transition target exists, and the responders can
    /// activate every state's sounds.
    pub open spec fn wf(self) -> bool {
        &&& self.states.len() > 0
        &&& self.current < self.states.len()
        &&& forall|i: int|
            0 <= i < self.states.len() ==> (#[trigger] self.states[i]).targets_wf(
                self.states.len() as int,
            )
        &&& self.responder.wf()
        &&& forall|i: int|
            0 <= i < self.states.len() ==> self.responder.accepts(#[trigger] self.states[i])
    }

    /// The machine after exiting the current state and entering
    /// `target` at time `now`: output is reset to the entry
    /// configuration of `target` and the responders are notified.
    pub open spec fn after_transition(self, target: usize, now: u64) -> MachineV {
        MachineV {
            current: target,
            last_enter: now,
            responder: self.responder.after_enter(self.states[target as int], now),
            ..self
        }
    }

    /// Whether this tick polls the sensors: only when neither the
    /// timeout nor the completion transition fired first.
    pub open spec fn polls(self, now: u64) -> bool {
        &&& self.current_state().timeout_transition(spec_elapsed(self.last_enter, now)) is None
        &&& self.current_state().end_transition(self.responder.done(now)) is None
    }

    /// The input symbol this tick feeds to the resolver: the front of
    /// the sensor queue, if the sensors are polled at all.
    pub open spec fn polled_input(self, now: u64) -> Option<Input> {
        if self.polls(now) && self.sensors.len() > 0 {
            Some(self.sensors[0])
        } else {
            None
        }
    }

    /// The single transition this tick takes, if any.
    pub open spec fn resolved(self, now: u64) -> Option<usize> {
        resolve(
            self.current_state(),
            spec_elapsed(self.last_enter, now),
            self.responder.done(now),
            self.polled_input(now),
        )
    }

    /// The machine after sensing: a polled input symbol is consumed
    /// whether or not it is mapped, and the resolved transition, if
    /// any, is performed.
    pub open spec fn after_sense(self, now: u64) -> MachineV {
        let polled = if self.polls(now) && self.sensors.len() > 0 {
            MachineV { sensors: self.sensors.drop_first(), ..self }
        } else {
            self
        };
        match self.resolved(now) {
            Some(target) => polled.after_transition(target, now),
            None => polled,
        }
    }

    /// The machine after one tick at time `now`: unchanged when a
    /// terminal state is current, otherwise sensed and actuated.
    pub open spec fn after_update(self, now: u64) -> MachineV {
        if !self.running() {
            self
        } else {
            self.after_sense(now)
        }
    }
}

/// At most one transition per tick: whatever combination of conditions
/// holds, a tick either leaves the current state index alone or moves
/// it exactly to the single resolved target.
pub proof fn lemma_at_most_one_transition(m: MachineV, now: u64)
    ensures
        m.after_update(now).current == m.current || m.resolved(now) == Some(
            m.after_update(now).current,
        ),
{
}

/// Terminal idempotence: a machine whose tick reported "not running"
/// is in a terminal state; every further tick leaves it — actuator
/// state included — completely unchanged and reports "not running"
/// again.
pub proof fn lemma_terminal_idempotence(m: MachineV, now: u64)
    requires
        !m.running(),
    ensures
        m.after_update(now) == m,
        !m.after_update(now).running(),
{
}

/// Priority of the timeout over everything else, at machine level: when
/// the current state's timeout is due, the tick moves to the timeout
/// target and consumes no input, whatever the actuators and sensors
/// report.
pub proof fn lemma_update_timeout_priority(m: MachineV, now: u64)
    requires
        m.running(),
        m.current_state().timeout matches Some(t) && spec_elapsed(m.last_enter, now)
            >= t.after_millis,
    ensures
        m.after_update(now).current == m.current_state().timeout->Some_0.to,
        m.after_update(now).sensors == m.sensors,
{
}

impl Machine {
    /// Wires a machine over a state graph: state 0 becomes current and
    /// the responders are notified of its entry at time `now`. The
    /// graph must be non-empty and validated, and the responder set
    /// built for it.
    pub fn new(sensors: Sensors, responder: CompositeResponder, states: Vec<State>, now: u64) -> (r:
        Machine)
        requires
            states@.len() > 0,
            forall|i: int|
                0 <= i < states@.len() ==> (#[trigger] state_views(states@)[i]).targets_wf(
                    states@.len() as int,
                ),
            responder@.wf(),
            forall|i: int|
                0 <= i < states@.len() ==> responder@.accepts(#[trigger] state_views(states@)[i]),
        ensures
            r@ == loaded_machine(sensors@, responder@, state_views(states@), now),
            r@.wf(),
    {
        let mut machine = Machine {
            sensors,
            responder,
            states,
            current_state_idx: 0,
            last_enter_time: now,
        };
        machine.enter(now);
        machine
    }

    /// Starts the next cycle of the machine, first sensing and changing
    /// state if a transition is resolved, then refreshing the
    /// actuators.
    ///
    /// Returns `true` if still running, `false` only if a terminal
    /// state has been reached; once it returns `false`, nothing moves
    /// any more.
    pub fn update(&mut self, now: u64) -> (r: bool)
        requires
            old(self)@.wf(),
        ensures
            final(self)@ == old(self)@.after_update(now),
            final(self)@.wf(),
            r == final(self)@.running(),
    {
        if self.current_state().is_terminal() {
            // Exit early if already done
            return false;
        }
        self.sense(now);
        self.actuate();
        !self.is_terminal()
    }

    /// The state the machine is in.
    pub fn current_state(&self) -> (r: &State)
        requires
            self@.wf(),
        ensures
            r@ == self@.current_state(),
    {
        &self.states[self.current_state_idx]
    }

    /// The responder fan-out, for observing actuator and publisher
    /// state.
    pub fn responder(&self) -> (r: &CompositeResponder)
        ensures
            r@ == self@.responder,
    {
        &self.responder
    }

    /// Accepts the next signal — due timeout, finished output or polled
    /// input, in that strict priority — and changes state if a
    /// transition is resolved. The sensors are polled at most once, and
    /// only when neither of the two higher-priority signals fired.
    fn sense(&mut self, now: u64)
        requires
            old(self)@.wf(),
            old(self)@.running(),
        ensures
            final(self)@ == old(self)@.after_sense(now),
            final(self)@.wf(),
    {
        let elapsed = elapsed_millis(self.last_enter_time, now);
        // Highest priority: timeout
        let mut next = {
            let state = &self.states[self.current_state_idx];
            state.transition_for_timeout(elapsed)
        };
        // Then try transitions on finished output
        if next.is_none() {
            if self.responder.done(now) {
                let state = &self.states[self.current_state_idx];
                next = state.transition_end();
            }
        }
        // Then poll input, consuming the symbol whether or not it is
        // mapped
        if next.is_none() {
            let polled = self.sensors.poll();
            if let Some(symbol) = polled {
                let state = &self.states[self.current_state_idx];
                next = state.transition_for_input(symbol);
            }
        }
        // If anything resolved a transition, perform it.
        proof {
            assert(next == old(self)@.resolved(now));
            crate::states::lemma_resolve_bounded(
                old(self)@.current_state(),
                spec_elapsed(old(self)@.last_enter, now),
                old(self)@.responder.done(now),
                old(self)@.polled_input(now),
                old(self)@.states.len() as int,
            );
        }
        if let Some(target) = next {
            self.transition_to(target, now);
        }
        proof {
            assert(final(self)@ =~= old(self)@.after_sense(now));
        }
    }

    /// Refreshes the actuators; in this model output advances with the
    /// clock alone, so nothing changes.
    fn actuate(&mut self)
        ensures
            final(self)@ == old(self)@,
    {
        self.responder.update();
        proof {
            assert(final(self)@ =~= old(self)@);
        }
    }

    /// `true`, if a terminal state has been reached.
    fn is_terminal(&self) -> (r: bool)
        requires
            self@.wf(),
        ensures
            r == !self@.running(),
    {
        self.current_state().is_terminal()
    }

    /// Exits the current state, sets the new index and enters the new
    /// state.
    fn transition_to(&mut self, idx: usize, now: u64)
        requires
            old(self)@.wf(),
            idx < old(self)@.states.len(),
        ensures
            final(self)@ == old(self)@.after_transition(idx, now),
            final(self)@.wf(),
    {
        self.exit();
        self.current_state_idx = idx;
        proof {
            lemma_after_clear_keeps_accepts(old(self)@.responder, self@.states[idx as int]);
        }
        self.enter(now);
        proof {
            lemma_clear_then_enter(
                old(self)@.responder,
                old(self)@.states[idx as int],
                now,
            );
            assert(final(self)@ =~= old(self)@.after_transition(idx, now));
        }
    }

    /// Enters the current state: notifies the responders of the entry
    /// and records the entry time.
    fn enter(&mut self, now: u64)
        requires
            old(self)@.states.len() > 0,
            old(self)@.current < old(self)@.states.len(),
            forall|i: int|
                0 <= i < old(self)@.states.len() ==> (#[trigger] old(self)@.states[i]).targets_wf(
                    old(self)@.states.len() as int,
                ),
            old(self)@.responder.wf(),
            forall|i: int|
                0 <= i < old(self)@.states.len() ==> old(self)@.responder.accepts(
                    #[trigger] old(self)@.states[i],
                ),
        ensures
            final(self)@ == (MachineV {
                last_enter: now,
                responder: old(self)@.responder.after_enter(old(self)@.current_state(), now),
                ..old(self)@
            }),
            final(self)@.wf(),
    {
        let state = &self.states[self.current_state_idx];
        let responder = &mut self.responder;
        responder.transition_to(state, now);
        self.last_enter_time = now;
        proof {
            lemma_after_enter_wf(old(self)@.responder, old(self)@.current_state(), now);
            assert forall|i: int| 0 <= i < self@.states.len() implies self@.responder.accepts(
                #[trigger] self@.states[i],
            ) by {
                lemma_after_enter_keeps_accepts(
                    old(self)@.responder,
                    old(self)@.current_state(),
                    now,
                    old(self)@.states[i],
                );
            }
            assert(final(self)@ =~= (MachineV {
                last_enter: now,
                responder: old(self)@.responder.after_enter(old(self)@.current_state(), now),
                ..old(self)@
            }));
        }
    }

    /// Exits the current state: clears all output.
    fn exit(&mut self)
        requires
            old(self)@.wf(),
        ensures
            final(self)@ == (MachineV {
                responder: old(self)@.responder.after_clear(),
                ..old(self)@
            }),
            final(self)@.wf(),
    {
        self.responder.clear();
        proof {
            lemma_after_clear_wf(old(self)@.responder);
            assert forall|i: int| 0 <= i < self@.states.len() implies self@.responder.accepts(
                #[trigger] self@.states[i],
            ) by {
                lemma_after_clear_keeps_accepts(old(self)@.responder, old(self)@.states[i]);
            }
            assert(final(self)@ =~= (MachineV {
                responder: old(self)@.responder.after_clear(),
                ..old(self)@
            }));
        }
    }

    /// Re-enters state 0 of the current graph, resetting all actuator
    /// output to its entry configuration.
    pub fn reset(&mut self, now: u64)
        requires
            old(self)@.wf(),
        ensures
            final(self)@ == old(self)@.after_transition(0, now),
            final(self)@.wf(),
    {
        self.transition_to(0, now);
    }

    /// Substitutes a new state graph and responder set, forcing
    /// re-entry into state 0 of the new graph at time `now`. The
    /// sensors are kept.
    pub fn load(&mut self, responder: CompositeResponder, states: Vec<State>, now: u64)
        requires
            states@.len() > 0,
            forall|i: int|
                0 <= i < states@.len() ==> (#[trigger] state_views(states@)[i]).targets_wf(
                    states@.len() as int,
                ),
            responder@.wf(),
            forall|i: int|
                0 <= i < states@.len() ==> responder@.accepts(#[trigger] state_views(states@)[i]),
        ensures
            final(self)@ == loaded_machine(
                old(self)@.sensors,
                responder@,
                state_views(states@),
                now,
            ),
            final(self)@.wf(),
    {
        self.responder = responder;
        self.states = states;
        self.current_state_idx = 0;
        self.enter(now);
        proof {
            assert(final(self)@ =~= loaded_machine(
                old(self)@.sensors,
                responder@,
                state_views(states@),
                now,
            ));
        }
    }
}

} // verus!
