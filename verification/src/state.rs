//! The app-level game state machine. Exactly one state is active at a time;
//! every gameplay system is gated on the state it belongs to, which is how
//! unrelated subsystems never run concurrently. Transitions are a total
//! function of the current state and the completion signal; signals that do
//! not concern the current state are ignored, and the two terminal states
//! accept no further transition.

use vstd::prelude::*;

verus! {

/// The exclusive set of app states.
#[derive(Debug, Clone, Copy, PartialEq, Eq, Hash, Default, Structural)]
pub enum AppState {
    /// The action selection menu; the initial state.
    #[default]
    ActionMenu,
    /// Combat: spawners, movement and collisions run only here.
    Defending,
    /// The end-of-level animation plus a fixed delay afterwards.
    LevelEndAnimation,
    /// The upgrade-selection menu between rounds.
    LevelTransition,
    /// The player's health reached zero. Terminal.
    Defeat,
    /// The final progression step completed. Terminal.
    Victory,
}

/// The completion signals that drive transitions. The three `NextStep`
/// variants carry the metagame's verdict after an upgrade is chosen.
#[derive(Debug, Clone, Copy, PartialEq, Eq, Structural)]
pub enum GameSignal {
    /// The player confirmed the attack/start entry of the action menu.
    StartSelected,
    /// The player's health was observed at or below zero.
    PlayerDefeated,
    /// The level timer elapsed, or combat otherwise completed.
    CombatFinished,
    /// The transition animation and its post-delay finished.
    AnimationsFinished,
    /// An upgrade was chosen and the next progression step is a level.
    NextStepIsLevel,
    /// An upgrade was chosen and the next progression step is the shop.
    NextStepIsShop,
    /// An upgrade was chosen and no progression step remains.
    ProgressionComplete,
}

/// The transition function: total over every state and signal.
pub open spec fn spec_next_state(s: AppState, signal: GameSignal) -> AppState {
    match (s, signal) {
        (AppState::ActionMenu, GameSignal::StartSelected) => AppState::Defending,
        (AppState::Defending, GameSignal::PlayerDefeated) => AppState::Defeat,
        (AppState::Defending, GameSignal::CombatFinished) => AppState::LevelEndAnimation,
        (AppState::LevelEndAnimation, GameSignal::AnimationsFinished) => AppState::LevelTransition,
        (AppState::LevelTransition, GameSignal::NextStepIsLevel) => AppState::Defending,
        (AppState::LevelTransition, GameSignal::NextStepIsShop) => AppState::LevelTransition,
        (AppState::LevelTransition, GameSignal::ProgressionComplete) => AppState::Victory,
        _ => s,
    }
}

/// Step the state machine by one signal.
pub fn next_state(s: AppState, signal: GameSignal) -> (r: AppState)
    ensures
        r == spec_next_state(s, signal),
{
    match (s, signal) {
        (AppState::ActionMenu, GameSignal::StartSelected) => AppState::Defending,
        (AppState::Defending, GameSignal::PlayerDefeated) => AppState::Defeat,
        (AppState::Defending, GameSignal::CombatFinished) => AppState::LevelEndAnimation,
        (AppState::LevelEndAnimation, GameSignal::AnimationsFinished) => AppState::LevelTransition,
        (AppState::LevelTransition, GameSignal::NextStepIsLevel) => AppState::Defending,
        (AppState::LevelTransition, GameSignal::NextStepIsShop) => AppState::LevelTransition,
        (AppState::LevelTransition, GameSignal::ProgressionComplete) => AppState::Victory,
        _ => s,
    }
}

/// Combat systems — spawners, movement, collisions, the damage pipeline —
/// run only while defending.
pub open spec fn spec_combat_active(s: AppState) -> bool {
    s is Defending
}

pub fn combat_active(s: AppState) -> (r: bool)
    ensures
        r == spec_combat_active(s),
{
    matches!(s, AppState::Defending)
}

/// When the level timer elapses and the player's death are observed in the
/// same tick, defeat takes precedence over level completion: a deliberate,
/// deterministic tie-break.
pub open spec fn spec_resolve_defending(
    s: AppState,
    defeated: bool,
    finished: bool,
) -> AppState {
    if defeated {
        spec_next_state(s, GameSignal::PlayerDefeated)
    } else if finished {
        spec_next_state(s, GameSignal::CombatFinished)
    } else {
        s
    }
}

/// Fold one combat tick's terminal observations into the state machine.
pub fn resolve_defending(s: AppState, defeated: bool, finished: bool) -> (r: AppState)
    ensures
        r == spec_resolve_defending(s, defeated, finished),
        defeated && s is Defending ==> r is Defeat,
{
    if defeated {
        next_state(s, GameSignal::PlayerDefeated)
    } else if finished {
        next_state(s, GameSignal::CombatFinished)
    } else {
        s
    }
}

/// Marker event: the player's health reached zero.
#[derive(Debug, Clone, Copy, PartialEq, Eq, Structural)]
pub struct LoseEvent;

/// Consume a lose event: from combat this is defeat; the signal is ignored
/// elsewhere, and defeat is terminal.
pub fn transition_to_defeat(s: AppState) -> (r: AppState)
    ensures
        r == spec_next_state(s, GameSignal::PlayerDefeated),
{
    next_state(s, GameSignal::PlayerDefeated)
}

/// How many of the six state predicates hold of `s`.
pub open spec fn spec_active_state_count(s: AppState) -> int {
    (if s is ActionMenu { 1int } else { 0int })
        + (if s is Defending { 1int } else { 0int })
        + (if s is LevelEndAnimation { 1int } else { 0int })
        + (if s is LevelTransition { 1int } else { 0int })
        + (if s is Defeat { 1int } else { 0int })
        + (if s is Victory { 1int } else { 0int })
}

/// State exclusivity: whatever the value, exactly one state is active, and
/// every transition preserves that by construction.
pub proof fn lemma_state_exclusive(s: AppState)
    ensures
        spec_active_state_count(s) == 1,
{
}

/// Defeat and Victory are terminal: no signal leaves them.
pub proof fn lemma_terminal_states(s: AppState, signal: GameSignal)
    ensures
        s is Defeat ==> spec_next_state(s, signal) is Defeat,
        s is Victory ==> spec_next_state(s, signal) is Victory,
{
}

} // verus!
