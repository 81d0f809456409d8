//! States of a story graph and the priority-ordered transition resolver.
//!
//! A [`State`] describes what plays on entry, when the state is left again
//! (timeout, output completion, dialed input) and whether it is terminal.
//! [`resolve`] is the single place that decides which transition a tick
//! takes: a due timeout always wins, then completion of all output, then
//! a polled input symbol; at most one of them fires.

use vstd::prelude::*;

verus! {

/// A discrete input symbol delivered by the sensors, such as a dialed
/// digit or a change of the hook.
#[derive(Clone, Copy, Debug, PartialEq, Eq, Structural)]
pub enum Input {
    /// A dialed digit, `0` to `9`.
    Digit(u8),
    /// The receiver was hung up.
    HangUp,
    /// The receiver was picked up.
    PickUp,
}

/// One entry of a state's input map: on symbol `on`, go to state `to`.
#[derive(Clone, Copy, Debug, PartialEq, Eq, Structural)]
pub struct InputTransition {
    pub on: Input,
    pub to: usize,
}

/// A forced transition to state `to` once `after_millis` have elapsed in
/// the current state.
#[derive(Clone, Copy, Debug, PartialEq, Eq, Structural)]
pub struct Timeout {
    pub after_millis: u64,
    pub to: usize,
}

/// A node of the transition graph, immutable once its book is loaded.
pub struct State {
    id: String,
    name: String,
    sounds: Vec<usize>,
    timeout: Option<Timeout>,
    end: Option<usize>,
    input_map: Vec<InputTransition>,
    terminal: bool,
}

/// The mathematical content of a [`State`].
#[verifier::ext_equal]
pub ghost struct StateV {
    pub id: Seq<char>,
    pub name: Seq<char>,
    pub sounds: Seq<usize>,
    pub timeout: Option<Timeout>,
    pub end: Option<usize>,
    pub inputs: Seq<InputTransition>,
    pub terminal: bool,
}

impl View for State {
    type V = StateV;

    closed spec fn view(&self) -> StateV {
        StateV {
            id: self.id@,
            name: self.name@,
            sounds: self.sounds@,
            timeout: self.timeout,
            end: self.end,
            inputs: self.input_map@,
            terminal: self.terminal,
        }
    }
}

/// Target of the first entry of `inputs` that maps the symbol `on`.
pub open spec fn input_target_in(inputs: Seq<InputTransition>, on: Input) -> Option<usize>
    decreases inputs.len(),
{
    if inputs.len() == 0 {
        None
    } else if inputs[0].on == on {
        Some(inputs[0].to)
    } else {
        input_target_in(inputs.drop_first(), on)
    }
}

impl StateV {
    /// Where an input symbol leads from this state, if anywhere.
    pub open spec fn input_target(self, on: Input) -> Option<usize> {
        input_target_in(self.inputs, on)
    }

    /// The forced transition, if this state has a timeout and `elapsed`
    /// milliseconds in it have reached it.
    pub open spec fn timeout_transition(self, elapsed: int) -> Option<usize> {
        match self.timeout {
            Some(t) => if elapsed >= t.after_millis {
                Some(t.to)
            } else {
                None
            },
            None => None,
        }
    }

    /// The completion transition, if all output is done and this state
    /// defines an "end" target.
    pub open spec fn end_transition(self, output_done: bool) -> Option<usize> {
        if output_done {
            self.end
        } else {
            None
        }
    }

    /// All transition targets lie below `n_states`.
    pub open spec fn targets_wf(self, n_states: int) -> bool {
        &&& match self.timeout {
            Some(t) => t.to < n_states,
            None => true,
        }
        &&& match self.end {
            Some(e) => e < n_states,
            None => true,
        }
        &&& forall|i: int| 0 <= i < self.inputs.len() ==> (#[trigger] self.inputs[i]).to < n_states
    }

    /// All activated sound indices lie below `n_sounds`.
    pub open spec fn sounds_wf(self, n_sounds: int) -> bool {
        forall|i: int| 0 <= i < self.sounds.len() ==> (#[trigger] self.sounds[i]) < n_sounds
    }

    /// All transition targets lie below `n_states` and all activated
    /// sound indices below `n_sounds`.
    pub open spec fn wf(self, n_states: int, n_sounds: int) -> bool {
        self.targets_wf(n_states) && self.sounds_wf(n_sounds)
    }
}

/// The views of a sequence of states.
pub open spec fn state_views(states: Seq<State>) -> Seq<StateV> {
    states.map_values(|s: State| s@)
}

/// The transition resolver: decides the single transition a tick takes,
/// given the milliseconds spent in state `s`, whether all output for `s`
/// has finished, and the polled input symbol. Strict priority, first
/// match wins: timeout, then output completion, then input.
pub open spec fn resolve(s: StateV, elapsed: int, output_done: bool, input: Option<Input>) -> Option<
    usize,
> {
    if s.timeout_transition(elapsed) is Some {
        s.timeout_transition(elapsed)
    } else if s.end_transition(output_done) is Some {
        s.end_transition(output_done)
    } else {
        match input {
            Some(sym) => s.input_target(sym),
            None => None,
        }
    }
}

/// A due timeout preempts every other signal: whenever both the timeout
/// and the completion transition are ready in the same tick, the resolver
/// takes the timeout target, whatever input arrived besides.
pub proof fn lemma_timeout_takes_priority(
    s: StateV,
    elapsed: int,
    output_done: bool,
    input: Option<Input>,
)
    requires
        s.timeout matches Some(t) && elapsed >= t.after_millis,
        output_done && s.end is Some,
    ensures
        resolve(s, elapsed, output_done, input) == Some(s.timeout->Some_0.to),
{
}

/// An input lookup over entries that all point below `n` only yields
/// targets below `n`.
pub proof fn lemma_input_target_bounded(inputs: Seq<InputTransition>, on: Input, n: int)
    requires
        forall|i: int| 0 <= i < inputs.len() ==> (#[trigger] inputs[i]).to < n,
    ensures
        input_target_in(inputs, on) matches Some(t) ==> t < n,
    decreases inputs.len(),
{
    if inputs.len() > 0 && inputs[0].on != on {
        lemma_input_target_bounded(inputs.drop_first(), on, n);
    }
}

/// Whatever the resolver decides for a state whose targets all lie
/// below `n`, the decided target lies below `n` too.
pub proof fn lemma_resolve_bounded(
    s: StateV,
    elapsed: int,
    output_done: bool,
    input: Option<Input>,
    n: int,
)
    requires
        s.targets_wf(n),
    ensures
        resolve(s, elapsed, output_done, input) matches Some(t) ==> t < n,
{
    match input {
        Some(sym) => lemma_input_target_bounded(s.inputs, sym, n),
        None => (),
    }
}

/// If no entry of the prefix up to `i` maps `on`, the lookup over the
/// whole map equals the lookup over the rest.
proof fn lemma_input_target_skip(inputs: Seq<InputTransition>, on: Input, i: int)
    requires
        0 <= i <= inputs.len(),
        forall|k: int| 0 <= k < i ==> (#[trigger] inputs[k]).on != on,
    ensures
        input_target_in(inputs, on) == input_target_in(inputs.skip(i), on),
    decreases i,
{
    if i > 0 {
        lemma_input_target_skip(inputs.drop_first(), on, i - 1);
        assert(inputs.drop_first().skip(i - 1) =~= inputs.skip(i));
    } else {
        assert(inputs.skip(0) =~= inputs);
    }
}

impl State {
    /// The forced transition, if this state's timeout has been reached
    /// after `elapsed` milliseconds in it.
    pub fn transition_for_timeout(&self, elapsed: u64) -> (r: Option<usize>)
        ensures
            r == self@.timeout_transition(elapsed as int),
    {
        match self.timeout {
            Some(t) => if elapsed >= t.after_millis {
                Some(t.to)
            } else {
                None
            },
            None => None,
        }
    }

    /// The transition taken when all output for this state has finished.
    pub fn transition_end(&self) -> (r: Option<usize>)
        ensures
            r == self@.end,
    {
        self.end
    }

    /// The transition for a polled input symbol: the first matching entry
    /// of the input map decides.
    pub fn transition_for_input(&self, input: Input) -> (r: Option<usize>)
        ensures
            r == self@.input_target(input),
    {
        let mut i: usize = 0;
        while i < self.input_map.len()
            invariant
                i <= self.input_map.len(),
                forall|k: int| 0 <= k < i ==> (#[trigger] self.input_map@[k]).on != input,
            decreases self.input_map.len() - i,
        {
            let t = self.input_map[i];
            if t.on == input {
                proof {
                    lemma_input_target_skip(self.input_map@, input, i as int);
                    assert(self.input_map@.skip(i as int)[0] == self.input_map@[i as int]);
                }
                return Some(t.to);
            }
            i += 1;
        }
        proof {
            lemma_input_target_skip(self.input_map@, input, self.input_map@.len() as int);
            assert(self.input_map@.skip(self.input_map@.len() as int).len() == 0);
        }
        None
    }

    /// The configured timeout of this state, if any.
    pub fn timeout(&self) -> (r: Option<Timeout>)
        ensures
            r == self@.timeout,
    {
        self.timeout
    }

    /// The input map of this state, in lookup order.
    pub fn inputs(&self) -> (r: &Vec<InputTransition>)
        ensures
            r@ == self@.inputs,
    {
        &self.input_map
    }

    /// Whether this state is terminal; a terminal state is never exited.
    pub fn is_terminal(&self) -> (r: bool)
        ensures
            r == self@.terminal,
    {
        self.terminal
    }

    /// The unique identifier of this state.
    pub fn id(&self) -> (r: &String)
        ensures
            r@ == self@.id,
    {
        &self.id
    }

    /// The display name of this state.
    pub fn name(&self) -> (r: &String)
        ensures
            r@ == self@.name,
    {
        &self.name
    }

    /// The sound indices activated on entry into this state.
    pub fn sounds(&self) -> (r: &Vec<usize>)
        ensures
            r@ == self@.sounds,
    {
        &self.sounds
    }

    /// A fresh builder for a state, starting from an inert state: empty
    /// identifier and name, no sounds, no transitions, not terminal.
    pub fn builder() -> (r: StateBuilder)
        ensures
            r@ == (StateV {
                id: Seq::<char>::empty(),
                name: Seq::<char>::empty(),
                sounds: Seq::<usize>::empty(),
                timeout: None,
                end: None,
                inputs: Seq::<InputTransition>::empty(),
                terminal: false,
            }),
    {
        let state = State {
            id: String::new(),
            name: String::new(),
            sounds: Vec::new(),
            timeout: None,
            end: None,
            input_map: Vec::new(),
            terminal: false,
        };
        proof {
            assert(state@.sounds =~= Seq::<usize>::empty());
            assert(state@.inputs =~= Seq::<InputTransition>::empty());
        }
        StateBuilder { state }
    }
}

impl Clone for State {
    /// A clone carries the very same mathematical state.
    fn clone(&self) -> (r: Self)
        ensures
            r@ == self@,
    {
        let r = State {
            id: self.id.clone(),
            name: self.name.clone(),
            sounds: clone_indices(&self.sounds),
            timeout: self.timeout,
            end: self.end,
            input_map: clone_input_map(&self.input_map),
            terminal: self.terminal,
        };
        proof {
            assert(r@ =~= self@);
        }
        r
    }
}

/// Copies a vector of sound or state indices.
fn clone_indices(v: &Vec<usize>) -> (r: Vec<usize>)
    ensures
        r@ == v@,
{
    let mut r: Vec<usize> = Vec::new();
    let mut i: usize = 0;
    while i < v.len()
        invariant
            i <= v.len(),
            r@ == v@.take(i as int),
        decreases v.len() - i,
    {
        r.push(v[i]);
        i += 1;
        proof {
            assert(r@ =~= v@.take(i as int));
        }
    }
    proof {
        assert(v@.take(v@.len() as int) =~= v@);
    }
    r
}

/// Copies a state's input map.
fn clone_input_map(v: &Vec<InputTransition>) -> (r: Vec<InputTransition>)
    ensures
        r@ == v@,
{
    let mut r: Vec<InputTransition> = Vec::new();
    let mut i: usize = 0;
    while i < v.len()
        invariant
            i <= v.len(),
            r@ == v@.take(i as int),
        decreases v.len() - i,
    {
        r.push(v[i]);
        i += 1;
        proof {
            assert(r@ =~= v@.take(i as int));
        }
    }
    proof {
        assert(v@.take(v@.len() as int) =~= v@);
    }
    r
}

/// Builds a [`State`] field by field; every setter leaves the other
/// fields untouched.
pub struct StateBuilder {
    state: State,
}

impl View for StateBuilder {
    type V = StateV;

    closed spec fn view(&self) -> StateV {
        self.state@
    }
}

impl StateBuilder {
    /// Sets the unique identifier.
    pub fn id(self, id: &str) -> (r: Self)
        ensures
            r@ == (StateV { id: id@, ..self@ }),
    {
        let StateBuilder { mut state } = self;
        state.id = String::from_str(id);
        StateBuilder { state }
    }

    /// Sets the display name.
    pub fn name(self, name: &str) -> (r: Self)
        ensures
            r@ == (StateV { name: name@, ..self@ }),
    {
        let StateBuilder { mut state } = self;
        state.name = String::from_str(name);
        StateBuilder { state }
    }

    /// Sets the sound indices to activate on entry.
    pub fn sounds(self, sounds: Vec<usize>) -> (r: Self)
        ensures
            r@ == (StateV { sounds: sounds@, ..self@ }),
    {
        let StateBuilder { mut state } = self;
        state.sounds = sounds;
        StateBuilder { state }
    }

    /// Sets a forced transition to `to` after `after_millis` in the state.
    pub fn timeout(self, after_millis: u64, to: usize) -> (r: Self)
        ensures
            r@ == (StateV { timeout: Some(Timeout { after_millis, to }), ..self@ }),
    {
        let StateBuilder { mut state } = self;
        state.timeout = Some(Timeout { after_millis, to });
        StateBuilder { state }
    }

    /// Sets the transition taken when all output has finished.
    pub fn end(self, to: usize) -> (r: Self)
        ensures
            r@ == (StateV { end: Some(to), ..self@ }),
    {
        let StateBuilder { mut state } = self;
        state.end = Some(to);
        StateBuilder { state }
    }

    /// Adds an input transition: on symbol `on`, go to state `to`.
    pub fn input(self, on: Input, to: usize) -> (r: Self)
        ensures
            r@ == (StateV { inputs: self@.inputs.push(InputTransition { on, to }), ..self@ }),
    {
        let StateBuilder { mut state } = self;
        state.input_map.push(InputTransition { on, to });
        StateBuilder { state }
    }

    /// Marks the state as terminal.
    pub fn terminal(self, terminal: bool) -> (r: Self)
        ensures
            r@ == (StateV { terminal, ..self@ }),
    {
        let StateBuilder { mut state } = self;
        state.terminal = terminal;
        StateBuilder { state }
    }

    /// Finishes the state.
    pub fn build(self) -> (r: State)
        ensures
            r@ == self@,
    {
        self.state
    }
}

} // verus!
