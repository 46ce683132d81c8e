//! Requests to save or load one category of entities.

use crate::save_load::traits::SaveLoadPath;
use bevy_ecs::world::World;
use std::marker::PhantomData;
use vstd::prelude::*;

verus! {

/// Event type for saving the current game session.
///
/// `T` is the category of entities that the request is about; the request
/// itself only carries the strategy that names the file.
pub struct SaveEvent<T> where T: Send + Sync + 'static {
    /// The strategy and the marker of the category. They are kept as one
    /// pair, so that the strategy is stored as the very box that was handed
    /// in.
    carried: (Box<dyn SaveLoadPath>, PhantomData<T>),
}

impl<T> SaveEvent<T> where T: Send + Sync + 'static {
    /// Constructor for the SaveEvent::<T> event. The request answers exactly
    /// as the boxed strategy `path` does.
    pub fn new(path: Box<dyn SaveLoadPath>) -> (event: Self)
        ensures
            event.obeys_path_spec() == path.obeys_path_spec(),
            forall|world: &World| #[trigger] event.path_spec(world) == path.path_spec(world),
            forall|world: &World| #[trigger] event.file_spec(world) == path.file_spec(world),
    {
        let carried = (path, PhantomData);
        Self { carried }
    }
}

impl<T> SaveLoadPath for SaveEvent<T> where T: Send + Sync + 'static {
    closed spec fn obeys_path_spec(&self) -> bool {
        self.carried.0.obeys_path_spec()
    }

    closed spec fn path_spec(&self, world: &World) -> Seq<char> {
        self.carried.0.path_spec(world)
    }

    closed spec fn file_spec(&self, world: &World) -> Seq<char> {
        self.carried.0.file_spec(world)
    }

    fn get_path(&self, world: &World) -> (path: String) {
        self.carried.0.get_path(world)
    }

    fn get_file(&self, world: &World) -> (file: String) {
        self.carried.0.get_file(world)
    }
}

/// Event type for loading the saved game session.
pub struct LoadEvent<T> where T: Send + Sync + 'static {
    /// The strategy and the marker of the category, as in [`SaveEvent`].
    carried: (Box<dyn SaveLoadPath>, PhantomData<T>),
}

impl<T> SaveLoadPath for LoadEvent<T> where T: Send + Sync + 'static {
    closed spec fn obeys_path_spec(&self) -> bool {
        self.carried.0.obeys_path_spec()
    }

    closed spec fn path_spec(&self, world: &World) -> Seq<char> {
        self.carried.0.path_spec(world)
    }

    closed spec fn file_spec(&self, world: &World) -> Seq<char> {
        self.carried.0.file_spec(world)
    }

    fn get_path(&self, world: &World) -> (path: String) {
        self.carried.0.get_path(world)
    }

    fn get_file(&self, world: &World) -> (file: String) {
        self.carried.0.get_file(world)
    }
}

} // verus!
