//! Ready-made path strategies.

use crate::save_load::traits::SaveLoadPath;
use bevy_ecs::world::World;
use vstd::prelude::*;

verus! {

/// Provided implementor of [`SaveLoadPath`] that simply provides a static path.
pub struct StaticPath {
    path: String,
    file: String,
}

/// What a [`StaticPath`] stands for: the two texts it was made with.
pub struct StaticPathView {
    /// The directory part.
    pub path: Seq<char>,
    /// The file name.
    pub file: Seq<char>,
}

impl View for StaticPath {
    type V = StaticPathView;

    closed spec fn view(&self) -> StaticPathView {
        StaticPathView { path: self.path@, file: self.file@ }
    }
}

impl StaticPath {
    /// Create a new StaticPath with the given path and file name.
    pub fn new(path: String, file: String) -> (made: Self)
        ensures
            made@.path == path@,
            made@.file == file@,
    {
        Self { path, file }
    }
}

impl SaveLoadPath for StaticPath {
    open spec fn obeys_path_spec(&self) -> bool {
        true
    }

    open spec fn path_spec(&self, world: &World) -> Seq<char> {
        self@.path
    }

    open spec fn file_spec(&self, world: &World) -> Seq<char> {
        self@.file
    }

    fn get_path(&self, _world: &World) -> (path: String) {
        self.path.clone()
    }

    fn get_file(&self, _world: &World) -> (file: String) {
        self.file.clone()
    }
}

} // verus!
