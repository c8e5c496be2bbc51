use std::time::Duration;

use rustcraft::app::{App, ServerApp as EngineServerApp};
use rustcraft::client::{Action, ClientApp, DeviceEvent, Event, StartCause, WindowEvent};
use rustcraft::server::{ServerApp, UPDATE_PAUSE_MS};

#[test]
fn the_engine_server_app_takes_ticks() {
    let mut app = EngineServerApp::new();
    app.onTick(Duration::from_millis(16));
    app.onTick(Duration::from_secs(0));
}

#[test]
fn a_new_server_is_running() {
    let app = ServerApp::new();
    assert!(app.is_running());
}

#[test]
fn a_server_update_asks_for_a_pause_of_a_second() {
    let mut app = ServerApp::new();
    assert_eq!(UPDATE_PAUSE_MS, 1000);
    assert_eq!(app.update(Duration::from_millis(5)), 1000);
    assert_eq!(app.update(Duration::from_secs(3)), 1000);
}

#[test]
fn a_server_keeps_running_after_an_update() {
    let mut app = ServerApp::new();
    app.update(Duration::from_millis(1));
    assert!(app.is_running());
}

#[test]
fn a_new_client_has_a_world() {
    let app = ClientApp::new(0);
    assert!(app.world().is_some());
}

#[test]
fn the_end_of_a_round_of_events_asks_for_an_update_by_the_time_passed() {
    let mut app = ClientApp::new(100);
    assert_eq!(app.on_event(Event::MainEventsCleared, 350), Action::Update { dt: 250 });
    assert_eq!(app.on_event(Event::MainEventsCleared, 351), Action::Update { dt: 1 });
    assert_eq!(app.on_event(Event::MainEventsCleared, 351), Action::Update { dt: 0 });
}

#[test]
fn a_clock_that_went_back_gives_an_update_by_no_time() {
    let mut app = ClientApp::new(1000);
    assert_eq!(app.on_event(Event::MainEventsCleared, 400), Action::Update { dt: 0 });
    assert_eq!(app.on_event(Event::MainEventsCleared, 450), Action::Update { dt: 50 });
}

#[test]
fn the_first_round_of_events_restarts_the_clock() {
    let mut app = ClientApp::new(0);
    assert_eq!(app.on_event(Event::NewEvents(StartCause::Init), 5000), Action::Nothing);
    assert_eq!(app.on_event(Event::MainEventsCleared, 5016), Action::Update { dt: 16 });
}

#[test]
fn other_rounds_of_events_leave_the_clock_alone() {
    let mut app = ClientApp::new(10);
    for cause in [StartCause::Poll, StartCause::WaitCancelled, StartCause::ResumeTimeReached] {
        assert_eq!(app.on_event(Event::NewEvents(cause), 700), Action::Nothing);
    }
    assert_eq!(app.on_event(Event::MainEventsCleared, 710), Action::Update { dt: 700 });
}

#[test]
fn a_close_request_closes_the_window() {
    let mut app = ClientApp::new(0);
    assert_eq!(
        app.on_event(Event::WindowEvent(WindowEvent::CloseRequested), 1),
        Action::CloseWindow
    );
}

#[test]
fn closing_the_last_window_leaves_the_event_loop() {
    let mut app = ClientApp::new(0);
    assert_eq!(app.on_window_closed(true), Action::Exit);
    assert_eq!(app.on_window_closed(false), Action::Nothing);
}

#[test]
fn a_resize_is_passed_on_to_the_renderer() {
    let mut app = ClientApp::new(0);
    assert_eq!(app.on_event(Event::WindowEvent(WindowEvent::Resized), 1), Action::ResizeWindow);
}

#[test]
fn the_end_of_redrawing_finishes_the_frame() {
    let mut app = ClientApp::new(0);
    assert_eq!(app.on_event(Event::RedrawEventsCleared, 1), Action::EndFrame);
}

#[test]
fn a_user_event_is_reported() {
    let mut app = ClientApp::new(0);
    assert_eq!(app.on_event(Event::UserEvent, 1), Action::ReportUserEvent);
}

#[test]
fn the_other_window_events_call_for_nothing() {
    let mut app = ClientApp::new(0);
    for event in [
        WindowEvent::Moved,
        WindowEvent::Destroyed,
        WindowEvent::DroppedFile,
        WindowEvent::HoveredFile,
        WindowEvent::HoveredFileCancelled,
        WindowEvent::ReceivedCharacter,
        WindowEvent::Focused,
        WindowEvent::KeyboardInput,
        WindowEvent::ModifiersChanged,
        WindowEvent::CursorMoved,
        WindowEvent::CursorEntered,
        WindowEvent::CursorLeft,
        WindowEvent::MouseWheel,
        WindowEvent::MouseInput,
        WindowEvent::TouchpadPressure,
        WindowEvent::AxisMotion,
        WindowEvent::Touch,
        WindowEvent::ScaleFactorChanged,
        WindowEvent::ThemeChanged,
    ] {
        assert_eq!(app.on_event(Event::WindowEvent(event), 9), Action::Nothing);
    }
}

#[test]
fn device_events_call_for_nothing() {
    let mut app = ClientApp::new(0);
    for event in [
        DeviceEvent::Added,
        DeviceEvent::Removed,
        DeviceEvent::MouseMotion,
        DeviceEvent::MouseWheel,
        DeviceEvent::Motion,
        DeviceEvent::Button,
        DeviceEvent::Key,
        DeviceEvent::Text,
    ] {
        assert_eq!(app.on_event(Event::DeviceEvent(event), 9), Action::Nothing);
    }
}

#[test]
fn the_events_of_the_life_cycle_call_for_nothing() {
    let mut app = ClientApp::new(0);
    for event in [Event::Suspended, Event::Resumed, Event::RedrawRequested, Event::LoopDestroyed] {
        assert_eq!(app.on_event(event, 9), Action::Nothing);
    }
}

#[test]
fn events_that_do_not_tick_leave_the_clock_alone() {
    let mut app = ClientApp::new(100);
    app.on_event(Event::WindowEvent(WindowEvent::Resized), 200);
    app.on_event(Event::RedrawEventsCleared, 300);
    app.on_event(Event::UserEvent, 400);
    app.on_event(Event::Suspended, 500);
    assert_eq!(app.on_event(Event::MainEventsCleared, 600), Action::Update { dt: 500 });
}

#[test]
fn events_leave_the_world_loaded() {
    let mut app = ClientApp::new(0);
    app.on_event(Event::NewEvents(StartCause::Init), 1);
    app.on_event(Event::MainEventsCleared, 2);
    app.on_event(Event::LoopDestroyed, 3);
    assert!(app.world().is_some());
}
