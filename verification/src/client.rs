//! The client program's reaction to the events of its window system.
//!
//! The program that owns the window hands each event over as an [`Event`],
//! together with the reading of a monotonic clock in nanoseconds, and carries
//! out the [`Action`] that comes back.

use vstd::prelude::*;
use crate::model::world::World;

verus! {

/// Why the event loop started a new round of events.
#[derive(Clone, Copy, Debug, PartialEq, Eq, Structural)]
pub enum StartCause {
    ResumeTimeReached,
    WaitCancelled,
    Poll,
    Init,
}

/// An event of a window.
#[derive(Clone, Copy, Debug, PartialEq, Eq, Structural)]
pub enum WindowEvent {
    Resized,
    Moved,
    CloseRequested,
    Destroyed,
    DroppedFile,
    HoveredFile,
    HoveredFileCancelled,
    ReceivedCharacter,
    Focused,
    KeyboardInput,
    ModifiersChanged,
    CursorMoved,
    CursorEntered,
    CursorLeft,
    MouseWheel,
    MouseInput,
    TouchpadPressure,
    AxisMotion,
    Touch,
    ScaleFactorChanged,
    ThemeChanged,
}

/// An event of an input device.
#[derive(Clone, Copy, Debug, PartialEq, Eq, Structural)]
pub enum DeviceEvent {
    Added,
    Removed,
    MouseMotion,
    MouseWheel,
    Motion,
    Button,
    Key,
    Text,
}

/// An event of the event loop.
#[derive(Clone, Copy, Debug, PartialEq, Eq, Structural)]
pub enum Event {
    NewEvents(StartCause),
    WindowEvent(WindowEvent),
    DeviceEvent(DeviceEvent),
    UserEvent,
    Suspended,
    Resumed,
    MainEventsCleared,
    RedrawRequested,
    RedrawEventsCleared,
    LoopDestroyed,
}

/// What the program is to do after an event.
#[derive(Clone, Copy, Debug, PartialEq, Eq, Structural)]
pub enum Action {
    /// Nothing.
    Nothing,
    /// Close the window of the event, then report with
    /// [`ClientApp::on_window_closed`].
    CloseWindow,
    /// Tell the renderer that the window of the event has a new size.
    ResizeWindow,
    /// Report the user event.
    ReportUserEvent,
    /// Update the world by `dt` nanoseconds.
    Update { dt: u64 },
    /// Finish the frame.
    EndFrame,
    /// Leave the event loop.
    Exit,
}

/// The nanoseconds from `last` to `now`, or none if `now` is the earlier.
pub open spec fn elapsed(last: u64, now: u64) -> u64 {
    if now >= last {
        (now - last) as u64
    } else {
        0
    }
}

/// The action that an event calls for, when the clock read `last` at the last
/// tick and reads `now`.
pub open spec fn reaction(event: Event, last: u64, now: u64) -> Action {
    match event {
        Event::WindowEvent(WindowEvent::CloseRequested) => Action::CloseWindow,
        Event::WindowEvent(WindowEvent::Resized) => Action::ResizeWindow,
        Event::UserEvent => Action::ReportUserEvent,
        Event::MainEventsCleared => Action::Update { dt: elapsed(last, now) },
        Event::RedrawEventsCleared => Action::EndFrame,
        _ => Action::Nothing,
    }
}

/// Whether an event makes `now` the time of the last tick.
pub open spec fn ticks(event: Event) -> bool {
    event == Event::NewEvents(StartCause::Init) || event == Event::MainEventsCleared
}

/// The client program.
pub struct ClientApp {
    world: Option<World>,
    last_tick: u64,
}

impl ClientApp {
    /// The clock reading at the last tick.
    pub closed spec fn last_tick(&self) -> u64 {
        self.last_tick
    }

    /// The world that is loaded, if any.
    pub closed spec fn spec_world(&self) -> Option<World> {
        self.world
    }

    /// A client with a new world, whose last tick is `now`.
    pub fn new(now: u64) -> (app: ClientApp)
        ensures
            app.last_tick() == now,
            app.spec_world() matches Some(w) && w.spec_map().is_fresh(),
    {
        ClientApp { world: Some(World::new()), last_tick: now }
    }

    /// The world that is loaded, if any.
    pub fn world(&self) -> (w: Option<&World>)
        ensures
            match w {
                Some(w) => self.spec_world() == Some(*w),
                None => self.spec_world() is None,
            },
    {
        self.world.as_ref()
    }

    fn on_init(&mut self, now: u64)
        ensures
            final(self).last_tick() == now,
            final(self).spec_world() == old(self).spec_world(),
    {
        self.last_tick = now;
    }

    fn on_suspend(&mut self)
        ensures
            *final(self) == *old(self),
    {
    }

    fn on_resume(&mut self)
        ensures
            *final(self) == *old(self),
    {
    }

    fn on_close(&mut self)
        ensures
            *final(self) == *old(self),
    {
    }

    fn on_update(&mut self, now: u64) -> (action: Action)
        ensures
            action == (Action::Update { dt: elapsed(old(self).last_tick(), now) }),
            final(self).last_tick() == now,
            final(self).spec_world() == old(self).spec_world(),
    {
        let dt = now.saturating_sub(self.last_tick);
        let action = self.update(dt);
        self.last_tick = now;
        action
    }

    fn on_redraw(&mut self)
        ensures
            *final(self) == *old(self),
    {
    }

    fn on_draw(&mut self) -> (action: Action)
        ensures
            action == Action::EndFrame,
            *final(self) == *old(self),
    {
        Action::EndFrame
    }

    fn update(&mut self, dt: u64) -> (action: Action)
        ensures
            action == (Action::Update { dt }),
            *final(self) == *old(self),
    {
        Action::Update { dt }
    }

    /// Takes an event of the event loop, with the clock reading `now`.
    ///
    /// The first round of events and the end of every round of events make
    /// `now` the last tick; the latter asks for an update by the time since
    /// the tick before. A close request and a resize are passed on to the
    /// renderer, and the end of redrawing finishes the frame.
    pub fn on_event(&mut self, event: Event, now: u64) -> (action: Action)
        ensures
            action == reaction(event, old(self).last_tick(), now),
            final(self).last_tick() == if ticks(event) {
                now
            } else {
                old(self).last_tick()
            },
            final(self).spec_world() == old(self).spec_world(),
    {
        match event {
            Event::NewEvents(start_cause) => {
                match start_cause {
                    StartCause::Init => {
                        self.on_init(now);
                    },
                    StartCause::ResumeTimeReached => {},
                    StartCause::WaitCancelled => {},
                    StartCause::Poll => {},
                }
                Action::Nothing
            },
            Event::WindowEvent(event) => self.on_window_event(event),
            Event::DeviceEvent(event) => self.on_device_event(event),
            Event::UserEvent => Action::ReportUserEvent,
            Event::Suspended => {
                self.on_suspend();
                Action::Nothing
            },
            Event::Resumed => {
                self.on_resume();
                Action::Nothing
            },
            Event::MainEventsCleared => self.on_update(now),
            Event::RedrawRequested => {
                self.on_redraw();
                Action::Nothing
            },
            Event::RedrawEventsCleared => self.on_draw(),
            Event::LoopDestroyed => {
                self.on_close();
                Action::Nothing
            },
        }
    }

    fn on_window_event(&mut self, event: WindowEvent) -> (action: Action)
        ensures
            action == match event {
                WindowEvent::CloseRequested => Action::CloseWindow,
                WindowEvent::Resized => Action::ResizeWindow,
                _ => Action::Nothing,
            },
            *final(self) == *old(self),
    {
        match event {
            WindowEvent::CloseRequested => Action::CloseWindow,
            WindowEvent::Resized => Action::ResizeWindow,
            WindowEvent::Moved => Action::Nothing,
            WindowEvent::Destroyed => Action::Nothing,
            WindowEvent::DroppedFile => Action::Nothing,
            WindowEvent::HoveredFile => Action::Nothing,
            WindowEvent::HoveredFileCancelled => Action::Nothing,
            WindowEvent::ReceivedCharacter => Action::Nothing,
            WindowEvent::Focused => Action::Nothing,
            WindowEvent::KeyboardInput => Action::Nothing,
            WindowEvent::ModifiersChanged => Action::Nothing,
            WindowEvent::CursorMoved => Action::Nothing,
            WindowEvent::CursorEntered => Action::Nothing,
            WindowEvent::CursorLeft => Action::Nothing,
            WindowEvent::MouseWheel => Action::Nothing,
            WindowEvent::MouseInput => Action::Nothing,
            WindowEvent::TouchpadPressure => Action::Nothing,
            WindowEvent::AxisMotion => Action::Nothing,
            WindowEvent::Touch => Action::Nothing,
            WindowEvent::ScaleFactorChanged => Action::Nothing,
            WindowEvent::ThemeChanged => Action::Nothing,
        }
    }

    fn on_device_event(&mut self, event: DeviceEvent) -> (action: Action)
        ensures
            action == Action::Nothing,
            *final(self) == *old(self),
    {
        match event {
            DeviceEvent::Added => {},
            DeviceEvent::Removed => {},
            DeviceEvent::MouseMotion => {},
            DeviceEvent::MouseWheel => {},
            DeviceEvent::Motion => {},
            DeviceEvent::Button => {},
            DeviceEvent::Key => {},
            DeviceEvent::Text => {},
        }
        Action::Nothing
    }

    /// Takes the outcome of [`Action::CloseWindow`]: whether the window that
    /// was closed was the last one. If it was, the program leaves the event
    /// loop.
    pub fn on_window_closed(&mut self, was_last: bool) -> (action: Action)
        ensures
            action == if was_last {
                Action::Exit
            } else {
                Action::Nothing
            },
            *final(self) == *old(self),
    {
        if was_last {
            Action::Exit
        } else {
            Action::Nothing
        }
    }
}

} // verus!
