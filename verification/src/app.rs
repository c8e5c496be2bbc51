//! Applications that the engine drives by ticks.

use vstd::prelude::*;
use std::time::Duration;

pub mod server;

pub use self::server::ServerApp;

verus! {

/// An application that is told how much time has passed.
#[allow(non_snake_case)]
pub trait App {
    /// Advances the application by `dt`.
    fn onTick(&mut self, dt: Duration);
}

} // verus!
