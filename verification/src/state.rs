//! The states themselves: the closed identifier set, the shared
//! blackboard record, the two concrete states with their lifecycle
//! hooks, and the tagged union that dispatches over them.
use vstd::prelude::*;

verus! {

/// Closed enumeration of the states the machine can hold. Every
/// identifier always has a live instance in the pool, so lookup is a
/// total function.
#[derive(Clone, Copy, PartialEq, Eq, Structural, Debug)]
pub enum StateIndex {
    MenuState,
    GameState,
}

impl StateIndex {
    /// Each state's sole transition destination is the other one: there
    /// is no self-transition and no terminal state.
    pub open spec fn spec_other(self) -> StateIndex {
        match self {
            StateIndex::MenuState => StateIndex::GameState,
            StateIndex::GameState => StateIndex::MenuState,
        }
    }

    /// The identifier of the other state.
    pub fn other(self) -> (r: StateIndex)
        ensures
            r == self.spec_other(),
    {
        match self {
            StateIndex::MenuState => StateIndex::GameState,
            StateIndex::GameState => StateIndex::MenuState,
        }
    }

    /// Human-readable state name, as it appears in a progress line.
    pub fn name(self) -> (r: &'static str)
        ensures
            self is MenuState ==> r@ == "Menu"@,
            self is GameState ==> r@ == "Game"@,
    {
        match self {
            StateIndex::MenuState => "Menu",
            StateIndex::GameState => "Game",
        }
    }
}

/// One progress signal: which state ran on a tick, and its counter value
/// right after that tick's increment. A driver renders it as
/// `"<name>: <counter>"`.
#[derive(Clone, Copy, PartialEq, Eq, Structural, Debug)]
pub struct Signal {
    pub state: StateIndex,
    pub counter: u32,
}

/// Shared context record handed across a transition boundary: one
/// counter slot per state variant. An outgoing state parks its progress
/// here and the incoming state picks its own slot back up; no state ever
/// touches the other's slot.
pub struct BlackBoard {
    pub menu_data: u32,
    pub game_data: u32,
}

impl Default for BlackBoard {
    /// Both slots start at zero.
    fn default() -> (r: Self)
        ensures
            r.menu_data == 0,
            r.game_data == 0,
    {
        BlackBoard { menu_data: 0, game_data: 0 }
    }
}

/// The menu mode. Its counter records ticks spent in the menu.
pub struct MenuState {
    pub data: u32,
}

impl Default for MenuState {
    fn default() -> (r: Self)
        ensures
            r.data == 0,
    {
        MenuState { data: 0 }
    }
}

impl MenuState {
    /// Restore this state's counter from its blackboard slot; the
    /// blackboard itself is left untouched.
    pub fn enter_state(&mut self, data: &mut BlackBoard)
        ensures
            final(self).data == old(data).menu_data,
            *final(data) == *old(data),
    {
        self.data = data.menu_data;
    }

    /// Advance by one tick: the counter grows by exactly one, and the
    /// other state's identifier comes back exactly when the new counter
    /// value is a multiple of three.
    pub fn update_state(&mut self) -> (r: Option<StateIndex>)
        requires
            old(self).data < u32::MAX,
        ensures
            final(self).data == old(self).data + 1,
            r == (if (old(self).data + 1) % 3 == 0 {
                Some(StateIndex::GameState)
            } else {
                None::<StateIndex>
            }),
    {
        self.data = self.data + 1;
        if self.data % 3 == 0 {
            Some(StateIndex::GameState)
        } else {
            None
        }
    }

    /// Park this state's counter in its blackboard slot; the other slot
    /// and the state itself are left untouched.
    pub fn exit_state(&mut self, data: &mut BlackBoard)
        ensures
            final(data).menu_data == old(self).data,
            final(data).game_data == old(data).game_data,
            *final(self) == *old(self),
    {
        data.menu_data = self.data;
    }
}

/// The game mode. Its counter records ticks spent in the game.
pub struct GameState {
    pub data: u32,
}

impl Default for GameState {
    fn default() -> (r: Self)
        ensures
            r.data == 0,
    {
        GameState { data: 0 }
    }
}

impl GameState {
    /// Restore this state's counter from its blackboard slot; the
    /// blackboard itself is left untouched.
    pub fn enter_state(&mut self, data: &mut BlackBoard)
        ensures
            final(self).data == old(data).game_data,
            *final(data) == *old(data),
    {
        self.data = data.game_data;
    }

    /// Advance by one tick: the counter grows by exactly one, and the
    /// other state's identifier comes back exactly when the new counter
    /// value is a multiple of three.
    pub fn update_state(&mut self) -> (r: Option<StateIndex>)
        requires
            old(self).data < u32::MAX,
        ensures
            final(self).data == old(self).data + 1,
            r == (if (old(self).data + 1) % 3 == 0 {
                Some(StateIndex::MenuState)
            } else {
                None::<StateIndex>
            }),
    {
        self.data = self.data + 1;
        if self.data % 3 == 0 {
            Some(StateIndex::MenuState)
        } else {
            None
        }
    }

    /// Park this state's counter in its blackboard slot; the other slot
    /// and the state itself are left untouched.
    pub fn exit_state(&mut self, data: &mut BlackBoard)
        ensures
            final(data).game_data == old(self).data,
            final(data).menu_data == old(data).menu_data,
            *final(self) == *old(self),
    {
        data.game_data = self.data;
    }
}

/// Tagged union over the concrete states. Lifecycle calls dispatch by
/// exhaustive matching, so the state set is closed and every call is
/// total.
pub enum State {
    MenuState(MenuState),
    GameState(GameState),
}

impl State {
    /// The identifier of the variant this instance carries.
    pub open spec fn index(self) -> StateIndex {
        match self {
            State::MenuState(_) => StateIndex::MenuState,
            State::GameState(_) => StateIndex::GameState,
        }
    }

    /// The internal tick counter of this instance.
    pub open spec fn counter(self) -> u32 {
        match self {
            State::MenuState(s) => s.data,
            State::GameState(s) => s.data,
        }
    }

    /// The counter, readable at run time.
    pub fn get_counter(&self) -> (r: u32)
        ensures
            r == self.counter(),
    {
        match self {
            State::MenuState(s) => s.data,
            State::GameState(s) => s.data,
        }
    }

    /// What entering does to this instance: its counter is reloaded from
    /// its own blackboard slot; the variant stays.
    pub open spec fn after_enter(self, b: BlackBoard) -> State {
        match self {
            State::MenuState(_) => State::MenuState(MenuState { data: b.menu_data }),
            State::GameState(_) => State::GameState(GameState { data: b.game_data }),
        }
    }

    /// What exiting does to the blackboard: this instance's counter is
    /// parked in its own slot; the other slot stays.
    pub open spec fn board_after_exit(self, b: BlackBoard) -> BlackBoard {
        match self {
            State::MenuState(s) => BlackBoard { menu_data: s.data, ..b },
            State::GameState(s) => BlackBoard { game_data: s.data, ..b },
        }
    }

    /// Restore this state's counter from its own blackboard slot.
    pub fn enter_state(&mut self, data: &mut BlackBoard)
        ensures
            *final(self) == old(self).after_enter(*old(data)),
            *final(data) == *old(data),
    {
        match self {
            State::MenuState(s) => s.enter_state(data),
            State::GameState(s) => s.enter_state(data),
        }
    }

    /// Advance by one tick; the other state's identifier comes back
    /// exactly when the new counter value is a multiple of three.
    pub fn update_state(&mut self) -> (r: Option<StateIndex>)
        requires
            old(self).counter() < u32::MAX,
        ensures
            final(self).index() == old(self).index(),
            final(self).counter() == old(self).counter() + 1,
            r == (if (old(self).counter() + 1) % 3 == 0 {
                Some(old(self).index().spec_other())
            } else {
                None::<StateIndex>
            }),
    {
        match self {
            State::MenuState(s) => s.update_state(),
            State::GameState(s) => s.update_state(),
        }
    }

    /// Park this state's counter in its own blackboard slot; the other
    /// slot and the state itself are left untouched.
    pub fn exit_state(&mut self, data: &mut BlackBoard)
        ensures
            *final(data) == old(self).board_after_exit(*old(data)),
            *final(self) == *old(self),
    {
        match self {
            State::MenuState(s) => s.exit_state(data),
            State::GameState(s) => s.exit_state(data),
        }
    }
}

} // verus!
