//! The categories of saved data that the game knows.

use vstd::prelude::*;

verus! {

/// Marker for what is saved and loaded with the game session: entities that
/// are local to the current session, such as the player, units and tiles.
#[derive(Default)]
pub struct GameSession;

/// Marker for what is saved and loaded with the user session: entities that
/// stay between game sessions, such as unlock progress.
#[derive(Default)]
pub struct UserSession;

} // verus!
