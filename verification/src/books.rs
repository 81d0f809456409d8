//! Books: complete story definitions of states and their sound resources.
//!
//! A book is immutable once built. Whether every state only references
//! sounds and target states that exist is checked by [`Book::validate`];
//! a session only ever runs on a book that passed that check.

use vstd::prelude::*;

use crate::Error;
use crate::states::{State, StateV};

verus! {

/// An output resource a state can activate: a piece of audio with a fixed
/// play time, optionally looping forever.
#[derive(Clone, Copy, Debug, PartialEq, Eq, Structural)]
pub struct Sound {
    /// How long the sound plays, in milliseconds.
    pub duration_millis: u64,
    /// A looping sound restarts forever and never reports completion.
    pub looping: bool,
}

/// A loaded story: an ordered sequence of states and the sounds they
/// reference by index.
pub struct Book {
    states: Vec<State>,
    sounds: Vec<Sound>,
}

/// The mathematical content of a [`Book`].
#[verifier::ext_equal]
pub ghost struct BookV {
    pub states: Seq<StateV>,
    pub sounds: Seq<Sound>,
}

impl View for Book {
    type V = BookV;

    closed spec fn view(&self) -> BookV {
        BookV { states: self.states@.map_values(|s: State| s@), sounds: self.sounds@ }
    }
}

impl BookV {
    /// A book is well-formed when it has at least one state and every
    /// state only references existing states and sounds.
    pub open spec fn wf(self) -> bool {
        &&& self.states.len() > 0
        &&& forall|i: int|
            0 <= i < self.states.len() ==> (#[trigger] self.states[i]).wf(
                self.states.len() as int,
                self.sounds.len() as int,
            )
    }
}

/// Some transition of state `s` leads to `target`.
pub open spec fn state_has_target(s: StateV, target: usize) -> bool {
    ||| s.timeout matches Some(t) && t.to == target
    ||| s.end == Some(target)
    ||| exists|i: int| 0 <= i < s.inputs.len() && (#[trigger] s.inputs[i]).to == target
}

/// The defect an [`Error`] reports really is present in the book: the
/// named state exists and references the named missing sound or state.
pub open spec fn error_witnessed(b: BookV, e: Error) -> bool {
    match e {
        Error::NoStates => b.states.len() == 0,
        Error::BadSoundRef { state, sound } => {
            &&& state < b.states.len()
            &&& b.states[state as int].sounds.contains(sound)
            &&& sound >= b.sounds.len()
        },
        Error::BadTarget { state, target } => {
            &&& state < b.states.len()
            &&& state_has_target(b.states[state as int], target)
            &&& target >= b.states.len()
        },
    }
}

/// The single inert state of a passive book.
pub open spec fn inert_state() -> StateV {
    StateV {
        id: Seq::<char>::empty(),
        name: Seq::<char>::empty(),
        sounds: Seq::<usize>::empty(),
        timeout: None,
        end: None,
        inputs: Seq::<crate::states::InputTransition>::empty(),
        terminal: false,
    }
}

/// The content of [`Book::passive`]: one inert state, no sounds.
pub open spec fn passive_book() -> BookV {
    BookV { states: seq![inert_state()], sounds: Seq::<Sound>::empty() }
}

impl Book {
    /// A passive book: a single state without sounds or transitions, used
    /// when a session starts before any real book is loaded. It is always
    /// well-formed.
    pub fn passive() -> (r: Book)
        ensures
            r@ == passive_book(),
            r@.wf(),
    {
        let mut states: Vec<State> = Vec::new();
        states.push(State::builder().build());
        let book = Book { states, sounds: Vec::new() };
        proof {
            assert(book@.states =~= seq![inert_state()]);
            assert(book@ =~= passive_book());
        }
        book
    }

    /// A fresh builder for a book with no states and no sounds yet.
    pub fn builder() -> (r: BookBuilder)
        ensures
            r@ == (BookV { states: Seq::<StateV>::empty(), sounds: Seq::<Sound>::empty() }),
    {
        let book = Book { states: Vec::new(), sounds: Vec::new() };
        proof {
            assert(book@.states =~= Seq::<StateV>::empty());
        }
        BookBuilder { book }
    }

    /// A copy of the state sequence, for wiring a machine against it.
    pub fn states(&self) -> (r: Vec<State>)
        ensures
            r@.map_values(|s: State| s@) == self@.states,
    {
        let mut r: Vec<State> = Vec::new();
        let mut i: usize = 0;
        while i < self.states.len()
            invariant
                i <= self.states.len(),
                r@.len() == i,
                forall|k: int| 0 <= k < i ==> (#[trigger] r@[k])@ == self.states@[k]@,
            decreases self.states.len() - i,
        {
            r.push(self.states[i].clone());
            i += 1;
        }
        proof {
            assert(r@.map_values(|s: State| s@) =~= self@.states);
        }
        r
    }

    /// The sound resources of this book.
    pub fn sounds(&self) -> (r: &Vec<Sound>)
        ensures
            r@ == self@.sounds,
    {
        &self.sounds
    }

    /// Checks that every state only references existing sounds and
    /// states. Returns `Ok` exactly on well-formed books; any error
    /// names a defect that is really present.
    pub fn validate(&self) -> (r: Result<(), Error>)
        ensures
            r is Ok <==> self@.wf(),
            r matches Err(e) ==> error_witnessed(self@, e),
    {
        let n_states = self.states.len();
        let n_sounds = self.sounds.len();
        if n_states == 0 {
            return Err(Error::NoStates);
        }
        let mut i: usize = 0;
        while i < n_states
            invariant
                i <= n_states,
                n_states == self@.states.len(),
                n_sounds == self@.sounds.len(),
                forall|j: int|
                    0 <= j < i ==> (#[trigger] self@.states[j]).wf(
                        n_states as int,
                        n_sounds as int,
                    ),
            decreases n_states - i,
        {
            let s = &self.states[i];
            proof {
                assert(s@ == self@.states[i as int]);
            }
            if let Some(t) = s.timeout() {
                if t.to >= n_states {
                    return Err(Error::BadTarget { state: i, target: t.to });
                }
            }
            if let Some(e) = s.transition_end() {
                if e >= n_states {
                    return Err(Error::BadTarget { state: i, target: e });
                }
            }
            let inputs = s.inputs();
            let mut j: usize = 0;
            while j < inputs.len()
                invariant
                    j <= inputs.len(),
                    inputs@ == s@.inputs,
                    n_states == self@.states.len(),
                    s@ == self@.states[i as int],
                    0 <= i < self@.states.len(),
                    forall|k: int| 0 <= k < j ==> (#[trigger] s@.inputs[k]).to < n_states,
                decreases inputs.len() - j,
            {
                if inputs[j].to >= n_states {
                    proof {
                        assert(state_has_target(s@, s@.inputs[j as int].to));
                    }
                    return Err(Error::BadTarget { state: i, target: inputs[j].to });
                }
                j += 1;
            }
            let snds = s.sounds();
            let mut k: usize = 0;
            while k < snds.len()
                invariant
                    k <= snds.len(),
                    snds@ == s@.sounds,
                    n_sounds == self@.sounds.len(),
                    n_states == self@.states.len(),
                    s@ == self@.states[i as int],
                    0 <= i < self@.states.len(),
                    forall|m: int| 0 <= m < k ==> (#[trigger] s@.sounds[m]) < n_sounds,
                decreases snds.len() - k,
            {
                if snds[k] >= n_sounds {
                    proof {
                        assert(s@.sounds.contains(s@.sounds[k as int]));
                    }
                    return Err(Error::BadSoundRef { state: i, sound: snds[k] });
                }
                k += 1;
            }
            proof {
                assert(s@.wf(n_states as int, n_sounds as int));
            }
            i += 1;
        }
        Ok(())
    }
}

/// Builds a [`Book`] by appending sounds and states.
pub struct BookBuilder {
    book: Book,
}

impl View for BookBuilder {
    type V = BookV;

    closed spec fn view(&self) -> BookV {
        self.book@
    }
}

impl BookBuilder {
    /// Appends a sound resource; states reference it by its position.
    pub fn sound(self, sound: Sound) -> (r: Self)
        ensures
            r@ == (BookV { sounds: self@.sounds.push(sound), ..self@ }),
    {
        let BookBuilder { mut book } = self;
        book.sounds.push(sound);
        BookBuilder { book }
    }

    /// Appends a state; the first appended state is the initial one.
    pub fn state(self, state: State) -> (r: Self)
        ensures
            r@ == (BookV { states: self@.states.push(state@), ..self@ }),
    {
        let BookBuilder { mut book } = self;
        let ghost before = book@.states;
        book.states.push(state);
        proof {
            assert(book@.states =~= before.push(state@));
        }
        BookBuilder { book }
    }

    /// Finishes the book.
    pub fn build(self) -> (r: Book)
        ensures
            r@ == self@,
    {
        self.book
    }
}

} // verus!
