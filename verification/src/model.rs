//! Mathematical model of the machine: the active identifier plus one
//! unbounded counter per state. `step` says what one tick does; `run`
//! iterates it. Every contract on the executable machine is stated
//! against this model.
use vstd::prelude::*;
use crate::state::Signal;
use crate::state::StateIndex;

verus! {

/// Abstract machine state: which identifier is active, and the tick
/// counter each of the two states has accumulated.
pub ghost struct Model {
    pub current: StateIndex,
    pub menu: nat,
    pub game: nat,
}

/// The counter the model holds for state `s`.
pub open spec fn counter_of(m: Model, s: StateIndex) -> nat {
    match s {
        StateIndex::MenuState => m.menu,
        StateIndex::GameState => m.game,
    }
}

/// The counter of the currently active state.
pub open spec fn active_counter(m: Model) -> nat {
    counter_of(m, m.current)
}

/// One tick: the active state's counter grows by one; when the new value
/// is a multiple of three the machine hands control to the other state.
pub open spec fn step(m: Model) -> Model {
    let c = active_counter(m) + 1;
    let bumped = match m.current {
        StateIndex::MenuState => Model { menu: c, ..m },
        StateIndex::GameState => Model { game: c, ..m },
    };
    if c % 3 == 0 {
        Model { current: m.current.spec_other(), ..bumped }
    } else {
        bumped
    }
}

/// The model after `n` ticks.
pub open spec fn run(m: Model, n: nat) -> Model
    decreases n,
{
    if n == 0 {
        m
    } else {
        step(run(m, (n - 1) as nat))
    }
}

/// The progress signal the next tick from `m` emits: the state that runs
/// and its counter value right after the increment.
pub open spec fn signal_of(m: Model) -> (StateIndex, nat) {
    (m.current, active_counter(m) + 1)
}

/// The sequence of progress signals emitted over `n` ticks from `m`.
pub open spec fn run_signals(m: Model, n: nat) -> Seq<(StateIndex, nat)>
    decreases n,
{
    if n == 0 {
        Seq::empty()
    } else {
        run_signals(m, (n - 1) as nat).push(signal_of(run(m, (n - 1) as nat)))
    }
}

/// `sig` is exactly the signal the next tick from `m` emits: it names
/// the state that runs and that state's counter right after the
/// increment.
pub open spec fn signal_matches(sig: Signal, m: Model) -> bool {
    &&& sig.state == m.current
    &&& sig.counter == active_counter(m) + 1
}

/// The model a freshly constructed machine satisfies: the game state is
/// active and both counters are zero.
pub open spec fn initial_model() -> Model {
    Model { current: StateIndex::GameState, menu: 0, game: 0 }
}

} // verus!
