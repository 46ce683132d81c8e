//! Save/load support: requests that carry a path strategy, and the rule that
//! turns a request into the name of the file to write.
//!
//! Saving and loading are triggered by [`SaveEvent`] and [`LoadEvent`]. Each
//! carries a [`SaveLoadPath`] strategy, which names the directory and the file
//! once it is shown the world. Taking the snapshot of the world and writing
//! the file are the engine's and the caller's work.

pub mod events;
pub mod game_types;
pub mod paths;
pub mod traits;

pub use crate::save_load::events::{LoadEvent, SaveEvent};
pub use crate::save_load::paths::{StaticPath, StaticPathView};
pub use crate::save_load::traits::SaveLoadPath;

use bevy_ecs::world::World;
use vstd::prelude::*;
use vstd::string::StringExecFns;

verus! {

/// The name of the file to write: the path directly followed by the file
/// name. Nothing is put between the two, so a path is expected to end in its
/// separator.
pub fn file_path_name(path: &str, file: &str) -> (name: String)
    ensures
        name@ == path@ + file@,
{
    let mut name = String::new();
    name.append(path);
    name.append(file);
    name
}

/// Asks a request where it wants its file in `world`, and joins the two
/// answers as [`file_path_name`] does. Where the request answers by its rule,
/// the name is the one that the rule gives.
pub fn resolve_file_path_name<P: SaveLoadPath + ?Sized>(
    request: &P,
    world: &World,
) -> (name: String)
    ensures
        request.obeys_path_spec() ==> name@ == request.path_spec(world) + request.file_spec(world),
{
    let path = request.get_path(world);
    let file = request.get_file(world);
    file_path_name(path.as_str(), file.as_str())
}

} // verus!
