//! Actuators: the local output sink driven by the engine.
//!
//! The hardware behind them plays sounds; what the engine reads back is
//! only "is the current output configuration still busy". The model of
//! the actuators is therefore the book's sound resources, the active
//! sound indices, and when the active configuration started, which
//! together determine busyness at any given time.

use vstd::prelude::*;

use crate::books::Sound;
use crate::clock::{elapsed_millis, spec_elapsed};
use crate::phone::Phone;
use crate::states::State;

verus! {

/// The output sink of a session: the available sound resources, the
/// currently active sound indices and when they started.
pub struct Actuators {
    sounds: Vec<Sound>,
    active: Vec<usize>,
    entered_at: u64,
}

/// The mathematical content of [`Actuators`].
#[verifier::ext_equal]
pub ghost struct ActuatorsV {
    pub sounds: Seq<Sound>,
    pub active: Seq<usize>,
    pub entered_at: u64,
}

impl View for Actuators {
    type V = ActuatorsV;

    closed spec fn view(&self) -> ActuatorsV {
        ActuatorsV { sounds: self.sounds@, active: self.active@, entered_at: self.entered_at }
    }
}

/// A sound that started playing at `entered_at` has finished by `now`:
/// it does not loop and its play time has fully elapsed.
pub open spec fn sound_over(s: Sound, entered_at: u64, now: u64) -> bool {
    !s.looping && spec_elapsed(entered_at, now) >= s.duration_millis
}

impl ActuatorsV {
    /// Every active index names an existing sound.
    pub open spec fn wf(self) -> bool {
        forall|i: int| 0 <= i < self.active.len() ==> (#[trigger] self.active[i]) < self.sounds.len()
    }

    /// All active sounds have finished by `now`; trivially true with no
    /// active sound.
    pub open spec fn done(self, now: u64) -> bool {
        forall|i: int|
            0 <= i < self.active.len() ==> sound_over(
                self.sounds[#[trigger] self.active[i] as int],
                self.entered_at,
                now,
            )
    }
}

impl Actuators {
    /// Fresh actuators over a book's sound resources, with no output
    /// active yet. The phone is the line they will drive; the model
    /// reads no data from it.
    pub fn new(phone: &Option<Phone>, sounds: Vec<Sound>) -> (r: Actuators)
        ensures
            r@ == (ActuatorsV { sounds: sounds@, active: Seq::<usize>::empty(), entered_at: 0 }),
            r@.wf(),
    {
        let acts = Actuators { sounds, active: Vec::new(), entered_at: 0 };
        proof {
            assert(acts@.active =~= Seq::<usize>::empty());
            assert(acts@ =~= (ActuatorsV {
                sounds: acts@.sounds,
                active: Seq::<usize>::empty(),
                entered_at: 0,
            }));
        }
        acts
    }

    /// Switches to a new output configuration starting at `now`.
    pub fn transition(&mut self, active: Vec<usize>, now: u64)
        requires
            forall|i: int| 0 <= i < active@.len() ==> (#[trigger] active@[i]) < old(
                self,
            )@.sounds.len(),
        ensures
            final(self)@ == (ActuatorsV {
                sounds: old(self)@.sounds,
                active: active@,
                entered_at: now,
            }),
            final(self)@.wf(),
    {
        self.active = active;
        self.entered_at = now;
    }

    /// Activates the entry configuration of `state` starting at `now`.
    pub fn transition_to(&mut self, state: &State, now: u64)
        requires
            forall|i: int| 0 <= i < state@.sounds.len() ==> (#[trigger] state@.sounds[i]) < old(
                self,
            )@.sounds.len(),
        ensures
            final(self)@ == (ActuatorsV {
                sounds: old(self)@.sounds,
                active: state@.sounds,
                entered_at: now,
            }),
            final(self)@.wf(),
    {
        let wanted = state.sounds();
        let mut active: Vec<usize> = Vec::new();
        let mut i: usize = 0;
        while i < wanted.len()
            invariant
                i <= wanted.len(),
                active@ == wanted@.take(i as int),
            decreases wanted.len() - i,
        {
            active.push(wanted[i]);
            i += 1;
            proof {
                assert(active@ =~= wanted@.take(i as int));
            }
        }
        proof {
            assert(wanted@.take(wanted@.len() as int) =~= wanted@);
        }
        self.transition(active, now);
    }

    /// Clears all output, as happens on exiting a state. The moment the
    /// cleared configuration started is kept; with nothing active it no
    /// longer matters.
    pub fn clear(&mut self)
        ensures
            final(self)@ == (ActuatorsV { active: Seq::<usize>::empty(), ..old(self)@ }),
            final(self)@.wf(),
    {
        self.active = Vec::new();
        proof {
            assert(final(self)@.active =~= Seq::<usize>::empty());
            assert(final(self)@ =~= (ActuatorsV { active: Seq::<usize>::empty(), ..old(self)@ }));
        }
    }

    /// The non-blocking busy check: whether every active sound has
    /// finished by `now`.
    pub fn done(&self, now: u64) -> (r: bool)
        requires
            self@.wf(),
        ensures
            r == self@.done(now),
    {
        let mut i: usize = 0;
        while i < self.active.len()
            invariant
                self@.wf(),
                i <= self.active.len(),
                forall|k: int|
                    0 <= k < i ==> sound_over(
                        self@.sounds[#[trigger] self@.active[k] as int],
                        self@.entered_at,
                        now,
                    ),
            decreases self.active.len() - i,
        {
            proof {
                assert(self@.active[i as int] < self@.sounds.len());
            }
            let sound = self.sounds[self.active[i]];
            let elapsed = elapsed_millis(self.entered_at, now);
            if sound.looping || elapsed < sound.duration_millis {
                proof {
                    assert(!sound_over(
                        self@.sounds[self@.active[i as int] as int],
                        self@.entered_at,
                        now,
                    ));
                }
                return false;
            }
            i += 1;
        }
        true
    }

    /// The per-tick refresh of the hardware drivers. Output in this
    /// model advances with the clock alone, so there is nothing to do
    /// and the actuators stay as they are.
    pub fn update(&mut self)
        ensures
            final(self)@ == old(self)@,
    {
    }

    /// The currently active sound indices.
    pub fn active(&self) -> (r: &Vec<usize>)
        ensures
            r@ == self@.active,
    {
        &self.active
    }
}

} // verus!
