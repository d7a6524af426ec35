//! Persistent state storage: one long-lived instance per identifier,
//! created once at construction and never inserted or removed after
//! that, so a transition is allocation-free. Lookup by identifier is a
//! total function over the closed identifier set.
use vstd::prelude::*;
use crate::state::GameState;
use crate::state::MenuState;
use crate::state::State;
use crate::state::StateIndex;

verus! {

/// One fixed slot per state identifier.
pub struct StatePool {
    pub menu: State,
    pub game: State,
}

impl StatePool {
    /// The instance stored under identifier `s`.
    pub open spec fn spec_entry(self, s: StateIndex) -> State {
        match s {
            StateIndex::MenuState => self.menu,
            StateIndex::GameState => self.game,
        }
    }

    /// Every slot holds the variant its identifier names.
    pub open spec fn wf(self) -> bool {
        &&& self.menu is MenuState
        &&& self.game is GameState
    }

    /// A pool with one default instance per identifier, each counter at
    /// zero.
    pub fn new() -> (r: StatePool)
        ensures
            r.wf(),
            r.spec_entry(StateIndex::MenuState).counter() == 0,
            r.spec_entry(StateIndex::GameState).counter() == 0,
    {
        StatePool {
            menu: State::MenuState(MenuState::default()),
            game: State::GameState(GameState::default()),
        }
    }

    /// Mutable handle to the instance stored under `s`; the other slot
    /// is left untouched. Lookup always succeeds: the identifier set is
    /// closed and every identifier has its slot.
    pub fn state_mut(&mut self, s: StateIndex) -> (r: &mut State)
        ensures
            *r == old(self).spec_entry(s),
            final(self).spec_entry(s) == *final(r),
            final(self).spec_entry(s.spec_other()) == old(self).spec_entry(s.spec_other()),
    {
        match s {
            StateIndex::MenuState => &mut self.menu,
            StateIndex::GameState => &mut self.game,
        }
    }
}

} // verus!
