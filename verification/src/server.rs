//! The state of the server program.

use vstd::prelude::*;
use std::time::Duration;
use crate::model::world::World;

verus! {

/// How long the server rests after an update, in milliseconds.
pub const UPDATE_PAUSE_MS: u32 = 1000;

/// The server program.
pub struct ServerApp {
    is_running: bool,
    world: Option<World>,
}

impl ServerApp {
    /// Whether a world is loaded.
    pub closed spec fn has_world(&self) -> bool {
        self.world is Some
    }

    /// Whether the server keeps running.
    pub closed spec fn running(&self) -> bool {
        self.is_running
    }

    /// A running server with no world loaded.
    pub fn new() -> (app: ServerApp)
        ensures
            app.running(),
            !app.has_world(),
    {
        ServerApp { is_running: true, world: None }
    }

    /// Whether the server keeps running.
    #[verifier::when_used_as_spec(running)]
    pub fn is_running(&self) -> (running: bool)
        ensures
            running == self.running(),
    {
        self.is_running
    }

    /// One update of the server after `dt` has passed. The server is left as
    /// it was; the result is the time to rest before the next update, in
    /// milliseconds.
    pub fn update(&mut self, dt: Duration) -> (pause_ms: u32)
        ensures
            pause_ms == UPDATE_PAUSE_MS,
            *final(self) == *old(self),
    {
        UPDATE_PAUSE_MS
    }
}

} // verus!
