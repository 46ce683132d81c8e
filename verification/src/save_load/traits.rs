//! The strategy by which a save or load request names its file.

use bevy_ecs::world::World;
use vstd::prelude::*;

verus! {

/// The engine's world (`bevy_ecs::world::World`), in which a strategy may look
/// up whatever decides its answer. The library only passes it along: nothing
/// is known of its contents.
#[verifier::external_type_specification]
#[verifier::external_body]
pub struct ExWorld(bevy_ecs::world::World);

/// Trait for getting the file path for saving and loading.
///
/// A strategy may answer by a rule: from its own state and the world that it is
/// shown, and from nothing else. Such a strategy says so with
/// `obeys_path_spec`, and states the rule in `path_spec` and `file_spec`; the
/// two methods are then held to it. A strategy that consults anything else
/// (the clock, say) leaves the three as they are, and nothing is claimed of
/// its answers.
///
/// Strategies travel inside events from one system to another, so every
/// strategy is `Send` and `Sync`.
pub trait SaveLoadPath: Send + Sync {
    /// Whether `get_path` and `get_file` answer as `path_spec` and `file_spec`
    /// say.
    open spec fn obeys_path_spec(&self) -> bool {
        false
    }

    /// The directory part that this strategy resolves to in `world`.
    open spec fn path_spec(&self, world: &World) -> Seq<char> {
        Seq::empty()
    }

    /// The file name that this strategy resolves to in `world`.
    open spec fn file_spec(&self, world: &World) -> Seq<char> {
        Seq::empty()
    }

    /// Specifies the save / load path.
    fn get_path(&self, world: &World) -> (path: String)
        ensures
            self.obeys_path_spec() ==> path@ == self.path_spec(world),
    ;

    /// Specifies the save / load file.
    fn get_file(&self, world: &World) -> (file: String)
        ensures
            self.obeys_path_spec() ==> file@ == self.file_spec(world),
    ;
}

} // verus!
