//! The laws the design obeys, each proved against the model that the
//! executable machine's contracts refine.
use vstd::prelude::*;
use crate::model::Model;
use crate::model::active_counter;
use crate::model::counter_of;
use crate::model::run;
use crate::model::run_signals;
use crate::model::step;
use crate::state::BlackBoard;
use crate::state::State;
use crate::state::StateIndex;

verus! {

/// Counter monotonicity: after `n` ticks during which the machine never
/// leaves the state it started in, that state's counter equals its
/// value before those ticks plus `n`.
pub proof fn lemma_counter_monotonicity(m: Model, n: nat)
    requires
        forall|i: nat| i < n ==> (#[trigger] run(m, i)).current == m.current,
    ensures
        counter_of(run(m, n), m.current) == counter_of(m, m.current) + n,
    decreases n,
{
    if n > 0 {
        lemma_counter_monotonicity(m, (n - 1) as nat);
        assert(run(m, (n - 1) as nat).current == m.current);
    }
}

/// Transition trigger: a tick moves the machine out of its state if and
/// only if the counter value right after that tick's increment is a
/// multiple of three — and when it moves, it moves to the other state.
pub proof fn lemma_transition_trigger(m: Model)
    ensures
        (step(m).current != m.current) <==> ((active_counter(m) + 1) % 3 == 0),
        step(m).current != m.current ==> step(m).current == m.current.spec_other(),
{
}

/// Two-state cycle: from either state, with both counters at a block
/// boundary (multiples of three, as at construction), the machine stays
/// put for three ticks and then stands in the other state — with both
/// counters at a block boundary again, so the strict alternation in
/// blocks of three repeats forever.
pub proof fn lemma_two_state_cycle(m: Model)
    requires
        counter_of(m, m.current) % 3 == 0,
        counter_of(m, m.current.spec_other()) % 3 == 0,
    ensures
        forall|j: nat| j < 3 ==> (#[trigger] run(m, j)).current == m.current,
        run(m, 3).current == m.current.spec_other(),
        counter_of(run(m, 3), run(m, 3).current) % 3 == 0,
        counter_of(run(m, 3), run(m, 3).current.spec_other()) % 3 == 0,
{
    let c = active_counter(m);
    assert((c + 1) % 3 == 1);
    assert((c + 2) % 3 == 2);
    assert((c + 3) % 3 == 0);
    assert(run(m, 1) == step(run(m, 0)));
    assert(run(m, 2) == step(run(m, 1)));
    assert(run(m, 3) == step(run(m, 2)));
    assert forall|j: nat| j < 3 implies (#[trigger] run(m, j)).current == m.current by {
        if j == 1 {
            assert(run(m, 1) == step(run(m, 0)));
        } else if j == 2 {
            assert(run(m, 2) == step(run(m, 1)));
        }
    }
}

/// Pooled continuity, across the whole run: a state's counter never
/// decreases, so re-entering a state continues from its last value
/// rather than resetting.
pub proof fn lemma_pooled_continuity(m: Model, s: StateIndex, i: nat, j: nat)
    requires
        i <= j,
    ensures
        counter_of(run(m, i), s) <= counter_of(run(m, j), s),
    decreases j,
{
    if i < j {
        lemma_pooled_continuity(m, s, i, (j - 1) as nat);
        assert(run(m, j) == step(run(m, (j - 1) as nat)));
    }
}

/// Blackboard round trip: exit followed by enter is the identity on a
/// state instance — the slot exit parks the counter in is exactly the
/// slot enter reads it back from.
pub proof fn lemma_round_trip(st: State, board: BlackBoard)
    ensures
        st.after_enter(st.board_after_exit(board)) == st,
{
}

/// Determinism: two machines that start from the same model and are
/// driven for the same number of ticks traverse the same models and
/// emit the same signal sequence.
pub proof fn lemma_determinism(m1: Model, m2: Model, n: nat)
    requires
        m1 == m2,
    ensures
        run(m1, n) == run(m2, n),
        run_signals(m1, n) == run_signals(m2, n),
{
}

} // verus!
