//! A world and its chunk grid.

use vstd::prelude::*;
use crate::model::map::WorldMap;

verus! {

/// A world.
pub struct World {
    map: Box<WorldMap>,
}

impl Clone for World {
    fn clone(&self) -> (w: Self)
        ensures
            w.spec_map().chunks() == self.spec_map().chunks(),
    {
        World { map: Box::new((*self.map).clone()) }
    }
}

impl World {
    /// The chunk grid of the world.
    pub closed spec fn spec_map(&self) -> WorldMap {
        *self.map
    }

    /// A world whose map is fresh.
    pub fn new() -> (w: World)
        ensures
            w.spec_map().is_fresh(),
    {
        World { map: WorldMap::new() }
    }

    /// The world for `path`: a new world, whatever the path.
    pub fn load(path: &str) -> (w: World)
        ensures
            w.spec_map().is_fresh(),
    {
        World::new()
    }

    /// Takes the path to store a world under, and stores nothing.
    pub fn save(path: &str) {
    }

    /// The chunk grid of the world.
    pub fn map(&self) -> (m: &WorldMap)
        ensures
            *m == self.spec_map(),
    {
        &self.map
    }
}

} // verus!
