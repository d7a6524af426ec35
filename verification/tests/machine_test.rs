use fsm::machine::StateMachine;
use fsm::state::Signal;
use fsm::state::StateIndex;
use fsm::state_test;

fn signal(state: StateIndex, counter: u32) -> Signal {
    Signal { state, counter }
}

#[test]
fn end_to_end_ten_ticks() {
    // Ten ticks from the initial machine (game active, counters zero):
    // three game ticks, a transition, three menu ticks, a transition,
    // and the pooled counters continue where they left off.
    let signals = state_test();
    let expected = vec![
        signal(StateIndex::GameState, 1),
        signal(StateIndex::GameState, 2),
        signal(StateIndex::GameState, 3),
        signal(StateIndex::MenuState, 1),
        signal(StateIndex::MenuState, 2),
        signal(StateIndex::MenuState, 3),
        signal(StateIndex::GameState, 4),
        signal(StateIndex::GameState, 5),
        signal(StateIndex::GameState, 6),
        signal(StateIndex::MenuState, 4),
    ];
    assert_eq!(signals, expected);
}

#[test]
fn initial_state_is_game() {
    let mut machine = StateMachine::new();
    let sig = machine.tick();
    assert_eq!(sig, signal(StateIndex::GameState, 1));
}

#[test]
fn counter_monotonic_within_block() {
    // Two ticks with no intervening transition: the active counter
    // advances by exactly one per tick.
    let mut machine = StateMachine::new();
    let first = machine.tick();
    let second = machine.tick();
    assert_eq!(first.state, second.state);
    assert_eq!(first.counter, 1);
    assert_eq!(second.counter, 2);
}

#[test]
fn transition_exactly_on_multiples_of_three() {
    // The active state changes after a tick if and only if that tick's
    // counter value is a multiple of three.
    let mut machine = StateMachine::new();
    let mut previous = machine.tick();
    for _ in 0..20 {
        let sig = machine.tick();
        if previous.counter % 3 == 0 {
            assert_ne!(sig.state, previous.state);
        } else {
            assert_eq!(sig.state, previous.state);
        }
        previous = sig;
    }
}

#[test]
fn two_state_cycle_in_blocks_of_three() {
    let mut machine = StateMachine::new();
    let mut states = Vec::new();
    for _ in 0..12 {
        states.push(machine.tick().state);
    }
    let expected = vec![
        StateIndex::GameState,
        StateIndex::GameState,
        StateIndex::GameState,
        StateIndex::MenuState,
        StateIndex::MenuState,
        StateIndex::MenuState,
        StateIndex::GameState,
        StateIndex::GameState,
        StateIndex::GameState,
        StateIndex::MenuState,
        StateIndex::MenuState,
        StateIndex::MenuState,
    ];
    assert_eq!(states, expected);
}

#[test]
fn pooled_counters_never_reset() {
    // Across re-entries, each state's counter continues from its last
    // value: the sequence of counters per state is strictly increasing.
    let mut machine = StateMachine::new();
    let mut last_menu: u32 = 0;
    let mut last_game: u32 = 0;
    for _ in 0..60 {
        let sig = machine.tick();
        match sig.state {
            StateIndex::MenuState => {
                assert_eq!(sig.counter, last_menu + 1);
                last_menu = sig.counter;
            }
            StateIndex::GameState => {
                assert_eq!(sig.counter, last_game + 1);
                last_game = sig.counter;
            }
        }
    }
    assert_eq!(last_menu, 30);
    assert_eq!(last_game, 30);
}

#[test]
fn determinism_identical_runs() {
    let mut first = StateMachine::new();
    let mut second = StateMachine::new();
    for _ in 0..30 {
        assert_eq!(first.tick(), second.tick());
    }
}

#[test]
fn state_names() {
    assert_eq!(StateIndex::MenuState.name(), "Menu");
    assert_eq!(StateIndex::GameState.name(), "Game");
}

#[test]
fn progress_lines_match_reference() {
    // The rendered output of the ten-tick demo, line by line.
    let lines: Vec<String> = state_test()
        .iter()
        .map(|sig| format!("{}: {}", sig.state.name(), sig.counter))
        .collect();
    let expected = vec![
        "Game: 1", "Game: 2", "Game: 3", "Menu: 1", "Menu: 2", "Menu: 3", "Game: 4", "Game: 5",
        "Game: 6", "Menu: 4",
    ];
    assert_eq!(lines, expected);
}
