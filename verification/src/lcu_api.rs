//! Resource paths and fixed header values of the local application's REST
//! surface.

use vstd::prelude::*;

verus! {

/// Lifecycle phase of the application; events under this path carry a state.
pub const GAMEFLOW_PHASE: &'static str = "/lol-gameflow/v1/gameflow-phase";

/// Accepts a ready check.
pub const GAME_ACCEPT: &'static str = "/lol-matchmaking/v1/ready-check/accept";

/// Starts another game from the end-of-game screen.
pub const PLAY_AGAIN: &'static str = "/lol-lobby/v2/play-again";

/// Starts the search for a match.
pub const GAME_SEARCH: &'static str = "/lol-lobby/v2/lobby/matchmaking/search";

/// Honors a player of the last game.
pub const HONOR_PLAYER: &'static str = "/lol-honor-v2/v1/honor-player";

/// The media type that the outbound client sends and accepts.
pub const JSON_MEDIA_TYPE: &'static str = "application/json; charset=utf-8";

} // verus!
