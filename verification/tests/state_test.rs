use fsm::pool::StatePool;
use fsm::state::BlackBoard;
use fsm::state::GameState;
use fsm::state::MenuState;
use fsm::state::State;
use fsm::state::StateIndex;

#[test]
fn blackboard_defaults_to_zero() {
    let board = BlackBoard::default();
    assert_eq!(board.menu_data, 0);
    assert_eq!(board.game_data, 0);
}

#[test]
fn blackboard_round_trip_restores_counter() {
    // Exit parks the counter; enter on a fresh default instance reads
    // the very same slot back: exit then enter is the identity on the
    // state's counter.
    let mut board = BlackBoard::default();
    let mut outgoing = MenuState { data: 7 };
    outgoing.exit_state(&mut board);
    assert_eq!(board.menu_data, 7);
    let mut incoming = MenuState::default();
    incoming.enter_state(&mut board);
    assert_eq!(incoming.data, 7);
}

#[test]
fn blackboard_round_trip_largest_value() {
    let mut board = BlackBoard::default();
    let mut outgoing = GameState { data: u32::MAX };
    outgoing.exit_state(&mut board);
    let mut incoming = GameState::default();
    incoming.enter_state(&mut board);
    assert_eq!(incoming.data, u32::MAX);
}

#[test]
fn blackboard_slots_stay_separate() {
    // No cross-state slot access: each state touches only its own slot.
    let mut board = BlackBoard {
        menu_data: 11,
        game_data: 22,
    };
    let mut game = GameState { data: 33 };
    game.exit_state(&mut board);
    assert_eq!(board.menu_data, 11);
    assert_eq!(board.game_data, 33);
    let mut menu = MenuState { data: 44 };
    menu.exit_state(&mut board);
    assert_eq!(board.menu_data, 44);
    assert_eq!(board.game_data, 33);
}

#[test]
fn update_increments_and_reports_transition() {
    let mut menu = MenuState { data: 2 };
    let target = menu.update_state();
    assert_eq!(menu.data, 3);
    assert_eq!(target, Some(StateIndex::GameState));

    let mut game = GameState::default();
    let target = game.update_state();
    assert_eq!(game.data, 1);
    assert_eq!(target, None);
}

#[test]
fn dispatched_update_targets_the_other_state() {
    let mut state = State::GameState(GameState { data: 5 });
    let target = state.update_state();
    assert_eq!(state.get_counter(), 6);
    assert_eq!(target, Some(StateIndex::MenuState));
}

#[test]
fn pool_lookup_is_total_over_the_identifier_set() {
    let mut pool = StatePool::new();
    assert!(matches!(
        pool.state_mut(StateIndex::MenuState),
        State::MenuState(_)
    ));
    assert!(matches!(
        pool.state_mut(StateIndex::GameState),
        State::GameState(_)
    ));
    assert_eq!(pool.state_mut(StateIndex::MenuState).get_counter(), 0);
    assert_eq!(pool.state_mut(StateIndex::GameState).get_counter(), 0);
}

#[test]
fn other_alternates_between_the_two_states() {
    assert_eq!(StateIndex::MenuState.other(), StateIndex::GameState);
    assert_eq!(StateIndex::GameState.other(), StateIndex::MenuState);
    assert_eq!(StateIndex::MenuState.other().other(), StateIndex::MenuState);
}
