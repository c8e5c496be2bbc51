use rustcraft::rendering::{
    choose_queue_family, closed_last_window, frame_step, AcquireOutcome, FrameStep, GeometryId,
    PresentOutcome, QueueFamilyInfo, RecreateOutcome, RenderWindow, RenderingError,
};

fn family(supports_graphics: bool, supports_surface: bool) -> QueueFamilyInfo {
    QueueFamilyInfo { supports_graphics, supports_surface }
}

fn stale_window() -> RenderWindow {
    let mut window = RenderWindow::new();
    window.on_resize();
    window
}

#[test]
fn a_geometry_id_is_an_unsigned_number() {
    let id: GeometryId = 0;
    assert_eq!(id, u32::MIN);
}

#[test]
fn the_first_suitable_queue_family_is_chosen() {
    let families =
        vec![family(false, true), family(true, false), family(true, true), family(true, true)];
    assert_eq!(choose_queue_family(&families), Some(2));
}

#[test]
fn a_suitable_first_queue_family_is_chosen() {
    assert_eq!(choose_queue_family(&vec![family(true, true), family(false, false)]), Some(0));
}

#[test]
fn a_suitable_last_queue_family_is_chosen() {
    let families = vec![family(false, false), family(true, false), family(true, true)];
    assert_eq!(choose_queue_family(&families), Some(2));
}

#[test]
fn no_queue_family_is_chosen_where_none_is_suitable() {
    assert_eq!(choose_queue_family(&vec![]), None);
    assert_eq!(choose_queue_family(&vec![family(true, false), family(false, true)]), None);
    assert_eq!(choose_queue_family(&vec![family(false, false)]), None);
}

#[test]
fn a_new_window_is_not_stale() {
    assert!(!RenderWindow::new().needs_recreation());
}

#[test]
fn a_resize_leaves_the_window_stale() {
    let mut window = RenderWindow::new();
    window.on_resize();
    assert!(window.needs_recreation());
    window.on_resize();
    assert!(window.needs_recreation());
}

#[test]
fn a_new_swapchain_makes_the_window_fresh() {
    let mut window = stale_window();
    assert_eq!(window.on_recreated(RecreateOutcome::Recreated), Ok(()));
    assert!(!window.needs_recreation());
}

#[test]
fn a_size_that_no_swapchain_can_have_keeps_the_window_stale() {
    let mut window = stale_window();
    assert_eq!(
        window.on_recreated(RecreateOutcome::UnsupportedDimensions),
        Err(RenderingError::RecreateSwapchainFailed)
    );
    assert!(window.needs_recreation());
}

#[test]
fn a_failure_to_make_the_swapchain_anew_is_a_device_failure() {
    let mut window = stale_window();
    assert_eq!(window.on_recreated(RecreateOutcome::Failed), Err(RenderingError::DeviceFailed));
    assert!(window.needs_recreation());
}

#[test]
fn an_acquired_image_leaves_the_window_as_it_was() {
    let mut fresh = RenderWindow::new();
    assert_eq!(fresh.on_acquired(AcquireOutcome::Acquired { suboptimal: false }), Ok(()));
    assert!(!fresh.needs_recreation());
    let mut stale = stale_window();
    assert_eq!(stale.on_acquired(AcquireOutcome::Acquired { suboptimal: false }), Ok(()));
    assert!(stale.needs_recreation());
}

#[test]
fn a_suboptimal_image_is_drawn_to_and_leaves_the_window_stale() {
    let mut window = RenderWindow::new();
    assert_eq!(window.on_acquired(AcquireOutcome::Acquired { suboptimal: true }), Ok(()));
    assert!(window.needs_recreation());
}

#[test]
fn a_swapchain_out_of_date_on_acquire_leaves_the_window_stale() {
    let mut window = RenderWindow::new();
    assert_eq!(
        window.on_acquired(AcquireOutcome::OutOfDate),
        Err(RenderingError::ImageAcquireFailed)
    );
    assert!(window.needs_recreation());
}

#[test]
fn a_failure_to_acquire_is_a_device_failure() {
    let mut window = RenderWindow::new();
    assert_eq!(window.on_acquired(AcquireOutcome::Failed), Err(RenderingError::DeviceFailed));
    assert!(!window.needs_recreation());
}

#[test]
fn a_presented_frame_is_in_flight() {
    let mut window = RenderWindow::new();
    assert!(window.on_presented(PresentOutcome::Presented));
    assert!(!window.needs_recreation());
}

#[test]
fn a_swapchain_out_of_date_on_present_leaves_the_window_stale() {
    let mut window = RenderWindow::new();
    assert!(!window.on_presented(PresentOutcome::OutOfDate));
    assert!(window.needs_recreation());
}

#[test]
fn a_failure_to_present_leaves_no_frame_in_flight() {
    let mut window = RenderWindow::new();
    assert!(!window.on_presented(PresentOutcome::Failed));
    assert!(!window.needs_recreation());
}

#[test]
fn a_window_goes_through_resize_recreation_and_a_frame() {
    let mut window = RenderWindow::new();
    window.on_resize();
    assert!(window.needs_recreation());
    assert_eq!(window.on_recreated(RecreateOutcome::Recreated), Ok(()));
    assert_eq!(window.on_acquired(AcquireOutcome::Acquired { suboptimal: false }), Ok(()));
    assert!(window.on_presented(PresentOutcome::Presented));
    assert!(!window.needs_recreation());
}

#[test]
fn an_acquired_image_is_drawn_to() {
    assert_eq!(frame_step(Ok(())), FrameStep::Draw);
}

#[test]
fn a_swapchain_that_is_out_of_date_ends_the_frame() {
    assert_eq!(frame_step(Err(RenderingError::ImageAcquireFailed)), FrameStep::EndFrame);
    assert_eq!(frame_step(Err(RenderingError::RecreateSwapchainFailed)), FrameStep::EndFrame);
}

#[test]
fn a_device_failure_aborts() {
    assert_eq!(frame_step(Err(RenderingError::DeviceFailed)), FrameStep::Abort);
}

#[test]
fn the_last_window_is_closed_when_none_remains() {
    assert!(closed_last_window(0));
    assert!(!closed_last_window(1));
    assert!(!closed_last_window(usize::MAX));
}
