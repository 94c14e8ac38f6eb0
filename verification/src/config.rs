//! The static configuration read once at startup. Decoding the file and
//! exiting on a malformed one belong to the host program; the core accepts
//! the decoded values as plain inputs.

use vstd::prelude::*;
use crate::state::AppState;

verus! {

/// A debug override applied at startup.
#[derive(Debug, Clone, Copy, PartialEq, Eq, Structural)]
pub struct DebugConfig {
    pub starting_state: AppState,
}

/// The startup configuration record.
#[derive(Debug, Clone, Copy, PartialEq, Eq, Structural)]
pub struct GameConfig {
    pub window_width: u32,
    pub window_height: u32,
    pub fullscreen: bool,
    pub debug: Option<DebugConfig>,
    pub infinite_hp: bool,
}

/// The state the app starts in: the debug override when present, otherwise
/// the action menu.
pub fn starting_state(config: &GameConfig) -> (r: AppState)
    ensures
        r == (match config.debug {
            Some(d) => d.starting_state,
            None => AppState::ActionMenu,
        }),
{
    match config.debug {
        Some(d) => d.starting_state,
        None => AppState::ActionMenu,
    }
}

} // verus!
