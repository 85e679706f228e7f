use engine_core::frame::after_frame;
use engine_core::{
    Action, App, ClearColor, Event, Followup, HarnessError, Stage, SwapchainCause, WindowEvent,
    WindowSize,
};
use wgpu::{CompositeAlphaMode, TextureFormat};

fn started(width: u32, height: u32) -> App {
    App::new(
        WindowSize { width, height },
        &vec![TextureFormat::Rgba8Unorm, TextureFormat::Rgba8UnormSrgb],
        &vec![CompositeAlphaMode::Auto],
    )
}

fn own(event: WindowEvent) -> Event {
    Event::Window { own: true, event }
}

#[test]
fn render_clears_to_the_fixed_color() {
    let app = started(800, 600);
    assert_eq!(app.render(Ok(())), Ok(ClearColor { red: 5, green: 75, blue: 85, alpha: 100 }));
}

#[test]
fn render_reports_each_cause_as_swapchain_error() {
    let app = started(800, 600);
    let causes = vec![
        SwapchainCause::Timeout,
        SwapchainCause::Outdated,
        SwapchainCause::Lost,
        SwapchainCause::OutOfMemory,
    ];
    for cause in causes {
        let outcome = app.render(Err(cause));
        assert_eq!(outcome, Err(HarnessError::SwapchainError(cause)));
        assert!(!outcome.unwrap_err().is_fatal());
    }
}

#[test]
fn loop_goes_on_after_a_frame() {
    let app = started(800, 600);
    assert_eq!(
        after_frame(app.render(Ok(()))),
        Followup { report: None, request_redraw: true, exit: false }
    );
}

#[test]
fn loop_goes_on_after_a_dropped_frame() {
    let app = started(800, 600);
    assert_eq!(
        after_frame(app.render(Err(SwapchainCause::Lost))),
        Followup {
            report: Some(HarnessError::SwapchainError(SwapchainCause::Lost)),
            request_redraw: true,
            exit: false,
        }
    );
}

#[test]
fn startup_errors_are_fatal() {
    assert!(HarnessError::SurfaceCreationFailed.is_fatal());
    assert!(HarnessError::NoAdapterFound.is_fatal());
    assert!(HarnessError::DeviceRequestFailed.is_fatal());
    assert!(!HarnessError::SwapchainError(SwapchainCause::Timeout).is_fatal());
}

#[test]
fn each_stage_fails_with_its_error() {
    assert_eq!(Stage::BindSurface.failure(), HarnessError::SurfaceCreationFailed);
    assert_eq!(Stage::RequestAdapter.failure(), HarnessError::NoAdapterFound);
    assert_eq!(Stage::RequestDevice.failure(), HarnessError::DeviceRequestFailed);
    assert_eq!(Stage::BindSurface.advance(false), Err(HarnessError::SurfaceCreationFailed));
    assert_eq!(Stage::RequestAdapter.advance(false), Err(HarnessError::NoAdapterFound));
    assert_eq!(Stage::RequestDevice.advance(false), Err(HarnessError::DeviceRequestFailed));
}

#[test]
fn stages_follow_in_order() {
    assert_eq!(Stage::BindSurface.advance(true), Ok(Some(Stage::RequestAdapter)));
    assert_eq!(Stage::RequestAdapter.advance(true), Ok(Some(Stage::RequestDevice)));
    assert_eq!(Stage::RequestDevice.advance(true), Ok(None));
}

#[test]
fn close_request_ends_the_loop() {
    let mut app = started(800, 600);
    assert_eq!(app.handle(own(WindowEvent::CloseRequested)), Action::Exit);
    assert_eq!(app.size(), WindowSize { width: 800, height: 600 });
}

#[test]
fn resize_event_reconfigures() {
    let mut app = started(800, 600);
    let event = own(WindowEvent::Resized(WindowSize { width: 1280, height: 720 }));
    assert_eq!(app.handle(event), Action::Reconfigure);
    assert_eq!(app.config().width, 1280);
    assert_eq!(app.config().height, 720);
}

#[test]
fn zero_area_resize_event_is_ignored() {
    let mut app = started(800, 600);
    let event = own(WindowEvent::Resized(WindowSize { width: 0, height: 720 }));
    assert_eq!(app.handle(event), Action::Ignore);
    assert_eq!(app.config().width, 800);
    assert_eq!(app.config().height, 600);
}

#[test]
fn about_to_wait_renders() {
    let mut app = started(800, 600);
    assert_eq!(app.handle(Event::AboutToWait), Action::Render);
    assert_eq!(app.size(), WindowSize { width: 800, height: 600 });
}

#[test]
fn scale_factor_change_is_ignored() {
    let mut app = started(800, 600);
    assert_eq!(app.handle(own(WindowEvent::ScaleFactorChanged)), Action::Ignore);
    assert_eq!(app.handle(own(WindowEvent::Other)), Action::Ignore);
    assert_eq!(app.handle(Event::Other), Action::Ignore);
    assert_eq!(app.config().width, 800);
    assert_eq!(app.config().height, 600);
}

#[test]
fn events_of_another_window_are_ignored() {
    let mut app = started(800, 600);
    let close = Event::Window { own: false, event: WindowEvent::CloseRequested };
    let resize = Event::Window {
        own: false,
        event: WindowEvent::Resized(WindowSize { width: 10, height: 10 }),
    };
    assert_eq!(app.handle(close), Action::Ignore);
    assert_eq!(app.handle(resize), Action::Ignore);
    assert_eq!(app.config().width, 800);
    assert_eq!(app.config().height, 600);
}

#[test]
fn startup_resize_and_render_end_to_end() {
    let mut app = started(800, 600);
    assert_eq!(app.config().width, 800);
    assert_eq!(app.config().height, 600);
    assert_eq!(app.config().format, TextureFormat::Rgba8UnormSrgb);
    let event = own(WindowEvent::Resized(WindowSize { width: 1024, height: 768 }));
    assert_eq!(app.handle(event), Action::Reconfigure);
    assert_eq!(app.config().width, 1024);
    assert_eq!(app.config().height, 768);
    assert_eq!(app.handle(Event::AboutToWait), Action::Render);
    let outcome = app.render(Ok(()));
    assert_eq!(outcome, Ok(ClearColor { red: 5, green: 75, blue: 85, alpha: 100 }));
    let next = after_frame(outcome);
    assert_eq!(next.report, None);
    assert!(next.request_redraw);
    assert!(!next.exit);
}
