//! A small finite-state-machine driver for per-object behavior
//! switching: two states, `Menu` and `Game`, each counting the ticks it
//! has run and yielding to the other after every third tick of
//! occupancy. State instances are pooled — one long-lived instance per
//! identifier — so a transition never allocates; a blackboard record
//! carries each state's counter across the transition boundary, and
//! because the instances persist, the hand-off provably restores the
//! very value the instance already holds: counters continue across
//! re-entry instead of resetting.
//!
//! The machine's behavior is specified against a mathematical model
//! (`model`); the laws the design obeys — monotone counters, the
//! multiple-of-three transition trigger, the strict two-state cycle in
//! blocks of three, continuity across re-entry, and determinism — are
//! proved in `laws`.

pub mod model;
pub mod state;
pub mod pool;
pub mod machine;
pub mod laws;

pub use machine::state_test;
pub use machine::StateMachine;
