use doodling_canvas::canvas::Color;
use doodling_canvas::render_state::State;
use doodling_canvas::surface::FrameAction;
use doodling_canvas::surface::SurfaceConfiguration;
use doodling_canvas::surface::SurfaceFormat;
use doodling_canvas::surface::SurfaceIssue;
use doodling_canvas::surface::choose_surface_format;
use doodling_canvas::surface::frame_action;
use doodling_canvas::winit_app::AppAction;
use doodling_canvas::winit_app::CanvasApp;
use doodling_canvas::winit_app::CanvasEvent;

#[test]
fn format_negotiation_prefers_first_srgb() {
    let formats = vec![
        SurfaceFormat { code: 1, srgb: false },
        SurfaceFormat { code: 2, srgb: true },
        SurfaceFormat { code: 3, srgb: true },
    ];
    assert_eq!(choose_surface_format(&formats).code, 2);
}

#[test]
fn format_negotiation_falls_back_to_first() {
    let formats = vec![
        SurfaceFormat { code: 9, srgb: false },
        SurfaceFormat { code: 4, srgb: false },
    ];
    assert_eq!(choose_surface_format(&formats).code, 9);
}

#[test]
fn zero_area_resize_is_ignored() {
    let format = SurfaceFormat { code: 2, srgb: true };
    let mut config = SurfaceConfiguration { width: 800, height: 600, format };
    config.resize(0, 400);
    assert_eq!((config.width, config.height), (800, 600));
    config.resize(400, 0);
    assert_eq!((config.width, config.height), (800, 600));
    config.resize(0, 0);
    assert_eq!((config.width, config.height), (800, 600));
    config.resize(640, 480);
    assert_eq!((config.width, config.height), (640, 480));
    assert_eq!(config.format.code, 2);
}

#[test]
fn state_resize_never_touches_the_canvas() {
    let formats = vec![SurfaceFormat { code: 2, srgb: true }];
    let paint = Color { r: 255, g: 255, b: 255, a: 255 };
    let clear = Color { r: 51, g: 51, b: 51, a: 255 };
    let mut state = State::new(64, 48, &formats, paint, clear);
    state.resize(0, 100);
    assert_eq!((state.config.width, state.config.height), (64, 48));
    state.resize(128, 96);
    assert_eq!((state.config.width, state.config.height), (128, 96));
    assert_eq!(state.canvas.width, 64);
    assert_eq!(state.canvas.height, 48);
    assert_eq!(state.canvas.data.len(), 64 * 48);
}

#[test]
fn present_failure_policy() {
    assert_eq!(frame_action(SurfaceIssue::Lost), FrameAction::Reconfigure);
    assert_eq!(frame_action(SurfaceIssue::OutOfMemory), FrameAction::Exit);
    assert_eq!(frame_action(SurfaceIssue::Timeout), FrameAction::SkipFrame);
    assert_eq!(frame_action(SurfaceIssue::Outdated), FrameAction::SkipFrame);
    assert_eq!(frame_action(SurfaceIssue::Other), FrameAction::SkipFrame);
}

#[test]
fn redraw_paints_only_while_button_held() {
    let mut app = CanvasApp::new();
    assert_eq!(app.window_event(CanvasEvent::Redraw), AppAction::Present);
    assert_eq!(
        app.window_event(CanvasEvent::PointerMoved { x: 120, y: 35 }),
        AppAction::Ignore
    );
    assert_eq!(
        app.window_event(CanvasEvent::PointerButton { pressed: true }),
        AppAction::Ignore
    );
    assert_eq!(
        app.window_event(CanvasEvent::Redraw),
        AppAction::PaintThenPresent { x: 0, y: 0, w: 10, h: 10, ox: 120, oy: 35 }
    );
    assert_eq!(
        app.window_event(CanvasEvent::PointerButton { pressed: false }),
        AppAction::Ignore
    );
    assert_eq!(app.window_event(CanvasEvent::Redraw), AppAction::Present);
}

#[test]
fn close_and_escape_exit_the_loop() {
    let mut app = CanvasApp::new();
    assert_eq!(app.window_event(CanvasEvent::CloseRequested), AppAction::Exit);
    assert_eq!(app.window_event(CanvasEvent::EscapePressed), AppAction::Exit);
}

#[test]
fn zero_area_resize_event_is_ignored() {
    let mut app = CanvasApp::new();
    assert_eq!(
        app.window_event(CanvasEvent::Resized { width: 0, height: 600 }),
        AppAction::Ignore
    );
    assert_eq!(
        app.window_event(CanvasEvent::Resized { width: 800, height: 0 }),
        AppAction::Ignore
    );
    assert_eq!(
        app.window_event(CanvasEvent::Resized { width: 800, height: 600 }),
        AppAction::Reconfigure { width: 800, height: 600 }
    );
}

#[test]
fn state_ready_clears_once_then_presents() {
    let mut app = CanvasApp::new();
    assert_eq!(app.state_ready(), AppAction::ClearThenPresent);
}
