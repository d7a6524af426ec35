//! The machine itself: it owns the pool, the active identifier and the
//! blackboard, and drives the per-tick protocol — update the active
//! state, and on a transition run `exit` on the outgoing instance,
//! switch the identifier, and `enter` on the incoming one.
use vstd::prelude::*;
use crate::model::Model;
use crate::model::active_counter;
use crate::model::initial_model;
use crate::model::run;
use crate::model::signal_matches;
use crate::model::step;
use crate::pool::StatePool;
use crate::state::BlackBoard;
use crate::state::Signal;
use crate::state::StateIndex;

verus! {

/// A two-state machine with pooled instances: transitions never
/// allocate, and each state's counter survives re-entry.
pub struct StateMachine {
    pub current: StateIndex,
    pub pool: StatePool,
    pub black_board: BlackBoard,
}

impl View for StateMachine {
    type V = Model;

    /// The machine denotes its active identifier and the two counters.
    open spec fn view(&self) -> Model {
        Model {
            current: self.current,
            menu: self.pool.menu.counter() as nat,
            game: self.pool.game.counter() as nat,
        }
    }
}

impl StateMachine {
    /// Well-formedness: every pool slot holds the variant its identifier
    /// names, and the inactive state's blackboard slot mirrors that
    /// state's counter — exactly what its last exit parked there, so the
    /// next enter provably restores the value the instance still holds.
    pub open spec fn wf(self) -> bool {
        &&& self.pool.wf()
        &&& self.current is MenuState ==> self.black_board.game_data == self.pool.game.counter()
        &&& self.current is GameState ==> self.black_board.menu_data == self.pool.menu.counter()
    }

    /// A machine in its initial state: the game state is active and
    /// every counter — pooled and on the blackboard — is zero.
    pub fn new() -> (r: StateMachine)
        ensures
            r.wf(),
            r@ == initial_model(),
    {
        StateMachine {
            current: StateIndex::GameState,
            pool: StatePool::new(),
            black_board: BlackBoard::default(),
        }
    }

    /// Advance by one tick, per `step` on the model: the active state's
    /// counter grows by one, a transition to the other state happens if
    /// and only if the new value is a multiple of three, and the emitted
    /// signal names the state that ran and its new counter.
    pub fn tick(&mut self) -> (sig: Signal)
        requires
            old(self).wf(),
            active_counter(old(self)@) < u32::MAX,
        ensures
            final(self).wf(),
            final(self)@ == step(old(self)@),
            signal_matches(sig, old(self)@),
    {
        let current: StateIndex = self.current;
        let target_opt: Option<StateIndex> = self.pool.state_mut(current).update_state();
        let counter: u32 = self.pool.state_mut(current).get_counter();
        let sig = Signal { state: current, counter };
        if let Some(target) = target_opt {
            self.pool.state_mut(current).exit_state(&mut self.black_board);
            self.current = target;
            self.pool.state_mut(target).enter_state(&mut self.black_board);
        }
        sig
    }
}

/// Drive a fresh machine for ten ticks and hand back the progress
/// signals it emitted, in order: each one is exactly the signal the
/// model predicts for that tick.
pub fn state_test() -> (signals: Vec<Signal>)
    ensures
        signals@.len() == 10,
        forall|i: int|
            0 <= i < 10 ==> signal_matches(#[trigger] signals@[i], run(initial_model(), i as nat)),
{
    let mut machine = StateMachine::new();
    let mut signals: Vec<Signal> = Vec::new();
    let mut i: usize = 0;
    proof {
        assert(run(initial_model(), 0) == initial_model());
    }
    while i < 10
        invariant
            i <= 10,
            machine.wf(),
            machine@ == run(initial_model(), i as nat),
            machine@.menu + machine@.game == i,
            signals@.len() == i,
            forall|j: int|
                0 <= j < i ==> signal_matches(
                    #[trigger] signals@[j],
                    run(initial_model(), j as nat),
                ),
        decreases 10 - i,
    {
        proof {
            assert(run(initial_model(), (i + 1) as nat) == step(run(initial_model(), i as nat)));
        }
        let sig = machine.tick();
        signals.push(sig);
        i = i + 1;
    }
    signals
}

} // verus!
