//! The engine's headless application.

use vstd::prelude::*;
use std::time::Duration;
use crate::app::App;

verus! {

/// An application without a window. It keeps no state.
pub struct ServerApp {}

impl ServerApp {
    /// A server application.
    pub fn new() -> (app: ServerApp)
        ensures
            app == (ServerApp {  }),
    {
        ServerApp {  }
    }
}

#[allow(non_snake_case)]
impl App for ServerApp {
    /// A tick leaves the application as it was.
    fn onTick(&mut self, dt: Duration)
        ensures
            *final(self) == *old(self),
    {
    }
}

} // verus!
