//! Decisions of the window-event loop: from the pointer state and one
//! input event to the action the loop performs.
//!
//! The event loop itself — window creation, the GPU device, the redraw
//! requests — is an external collaborator. It translates its events into
//! [`CanvasEvent`] values, hands them here, and carries out the
//! [`AppAction`] it gets back; the state tracked between events and the
//! decision taken for each are verified here.

use vstd::prelude::*;

verus! {

/// The side length in pixels of the fixed square brush a pointer stroke
/// paints.
pub const BRUSH_SIZE: u32 = 10;

/// An input event from the windowing collaborator, in pixel space.
#[derive(Clone, Copy, PartialEq, Eq, Structural, Debug)]
pub enum CanvasEvent {
    /// The window was asked to close.
    CloseRequested,
    /// The escape key was pressed.
    EscapePressed,
    /// The left pointer button changed state.
    PointerButton { pressed: bool },
    /// The pointer moved to pixel position `(x, y)`.
    PointerMoved { x: i32, y: i32 },
    /// The window asked to be redrawn.
    Redraw,
    /// The window was resized.
    Resized { width: u32, height: u32 },
}

/// The action the event loop performs in response to an event.
#[derive(Clone, Copy, PartialEq, Eq, Structural, Debug)]
pub enum AppAction {
    /// Abort the event loop before any further submission.
    Exit,
    /// Record a paint pass of the brush rectangle `(x, y, w, h)` at the
    /// pixel offset `(ox, oy)`, submit it, then present.
    PaintThenPresent { x: u32, y: u32, w: u32, h: u32, ox: i32, oy: i32 },
    /// Redraw the presentable surface from the canvas.
    Present,
    /// Reconfigure the surface at the new extents.
    Reconfigure { width: u32, height: u32 },
    /// Record a clear pass, submit it, then present the first frame.
    ClearThenPresent,
    /// Nothing to perform.
    Ignore,
}

/// The state the app tracks between window events: whether the left
/// button is held and where the pointer last was.
#[derive(Clone, Copy, PartialEq, Eq, Structural, Debug)]
pub struct CanvasApp {
    pub mouse_pressed: bool,
    pub mouse_x: i32,
    pub mouse_y: i32,
}

/// The state after a window event, and the action it decides: pointer
/// events update the tracked state; a redraw paints the brush at the
/// pointer while the button is held, and always presents; a resize with a
/// zero width or height is ignored; close and escape end the loop.
pub open spec fn window_event_spec(app: CanvasApp, event: CanvasEvent) -> (CanvasApp, AppAction) {
    match event {
        CanvasEvent::CloseRequested => (app, AppAction::Exit),
        CanvasEvent::EscapePressed => (app, AppAction::Exit),
        CanvasEvent::PointerButton { pressed } => (
            CanvasApp { mouse_pressed: pressed, ..app },
            AppAction::Ignore,
        ),
        CanvasEvent::PointerMoved { x, y } => (
            CanvasApp { mouse_x: x, mouse_y: y, ..app },
            AppAction::Ignore,
        ),
        CanvasEvent::Redraw => (
            app,
            if app.mouse_pressed {
                AppAction::PaintThenPresent {
                    x: 0,
                    y: 0,
                    w: BRUSH_SIZE,
                    h: BRUSH_SIZE,
                    ox: app.mouse_x,
                    oy: app.mouse_y,
                }
            } else {
                AppAction::Present
            },
        ),
        CanvasEvent::Resized { width, height } => (
            app,
            if width > 0 && height > 0 {
                AppAction::Reconfigure { width, height }
            } else {
                AppAction::Ignore
            },
        ),
    }
}

impl CanvasApp {
    /// The initial app state: button up, pointer at the origin.
    pub fn new() -> (r: CanvasApp)
        ensures
            r.mouse_pressed == false,
            r.mouse_x == 0,
            r.mouse_y == 0,
    {
        CanvasApp { mouse_pressed: false, mouse_x: 0, mouse_y: 0 }
    }

    /// Processes one window event: updates the tracked pointer state and
    /// decides the action, exactly as `window_event_spec` states.
    pub fn window_event(&mut self, event: CanvasEvent) -> (a: AppAction)
        ensures
            (*final(self), a) == window_event_spec(*old(self), event),
    {
        match event {
            CanvasEvent::CloseRequested => AppAction::Exit,
            CanvasEvent::EscapePressed => AppAction::Exit,
            CanvasEvent::PointerButton { pressed } => {
                self.mouse_pressed = pressed;
                AppAction::Ignore
            },
            CanvasEvent::PointerMoved { x, y } => {
                self.mouse_x = x;
                self.mouse_y = y;
                AppAction::Ignore
            },
            CanvasEvent::Redraw => {
                if self.mouse_pressed {
                    AppAction::PaintThenPresent {
                        x: 0,
                        y: 0,
                        w: BRUSH_SIZE,
                        h: BRUSH_SIZE,
                        ox: self.mouse_x,
                        oy: self.mouse_y,
                    }
                } else {
                    AppAction::Present
                }
            },
            CanvasEvent::Resized { width, height } => {
                if width > 0 && height > 0 {
                    AppAction::Reconfigure { width, height }
                } else {
                    AppAction::Ignore
                }
            },
        }
    }

    /// The response to the render state becoming ready: clear the canvas
    /// to the background once, then present the first frame.
    pub fn state_ready(&mut self) -> (a: AppAction)
        ensures
            *final(self) == *old(self),
            a == AppAction::ClearThenPresent,
    {
        AppAction::ClearThenPresent
    }
}

} // verus!
