use vstd::prelude::*;

verus! {

/// Where the window stands in its life.
#[derive(Clone, Copy, PartialEq, Eq, Structural, Debug)]
pub enum WindowState {
    /// Created, maximized, topmost, borderless, and immediately visible.
    Visible,
    /// Destruction was requested after an input event.
    Closing,
    /// The destroyed notification arrived; the event loop is told to end.
    Terminated,
}

/// An event the platform's event loop delivers to the window.
#[derive(Clone, Copy, PartialEq, Eq, Structural, Debug)]
pub enum WindowEvent {
    /// A repaint request.
    Paint,
    /// A character key was pressed.
    KeyPress,
    LeftButtonDown,
    RightButtonDown,
    MiddleButtonDown,
    ExtraButtonDown,
    /// The window was destroyed.
    Destroyed,
    /// Anything else.
    Other,
}

/// What the handler asks the platform to do in response to an event.
#[derive(Clone, Copy, PartialEq, Eq, Structural, Debug)]
pub enum WindowAction {
    /// Run a full fit-and-render cycle on the surface.
    Render,
    /// Destroy the window.
    RequestDestroy,
    /// End the event loop so the process exits with the given code.
    Quit { exit_code: i32 },
    /// Fall through to the platform's default handling.
    Default,
}

/// Any keypress or any mouse-button press closes the window.
pub open spec fn is_close_input(e: WindowEvent) -> bool {
    ||| e is KeyPress
    ||| e is LeftButtonDown
    ||| e is RightButtonDown
    ||| e is MiddleButtonDown
    ||| e is ExtraButtonDown
}

/// The whole control flow of the window: what each event does to the
/// state, and what the platform is asked to do.
pub open spec fn spec_handle_event(s: WindowState, e: WindowEvent) -> (WindowState, WindowAction) {
    if s is Visible && e is Paint {
        (WindowState::Visible, WindowAction::Render)
    } else if s is Visible && is_close_input(e) {
        (WindowState::Closing, WindowAction::RequestDestroy)
    } else if e is Destroyed {
        (WindowState::Terminated, WindowAction::Quit { exit_code: 0 })
    } else {
        (s, WindowAction::Default)
    }
}

/// Decide how to respond to one event. The platform performs the returned
/// action and hands the next event back.
pub fn handle_event(s: WindowState, e: WindowEvent) -> (r: (WindowState, WindowAction))
    ensures
        r == spec_handle_event(s, e),
{
    match (s, e) {
        (WindowState::Visible, WindowEvent::Paint) => (WindowState::Visible, WindowAction::Render),
        (WindowState::Visible, WindowEvent::KeyPress)
        | (WindowState::Visible, WindowEvent::LeftButtonDown)
        | (WindowState::Visible, WindowEvent::RightButtonDown)
        | (WindowState::Visible, WindowEvent::MiddleButtonDown)
        | (WindowState::Visible, WindowEvent::ExtraButtonDown) => (
            WindowState::Closing,
            WindowAction::RequestDestroy,
        ),
        (_, WindowEvent::Destroyed) => (
            WindowState::Terminated,
            WindowAction::Quit { exit_code: 0 },
        ),
        _ => (s, WindowAction::Default),
    }
}

/// Any keypress or mouse-button press on the visible window moves it to
/// `Closing` and requests destruction; the destroyed notification then
/// ends the event loop with exit code zero.
pub proof fn lemma_close_on_input(e: WindowEvent)
    requires
        is_close_input(e),
    ensures
        spec_handle_event(WindowState::Visible, e).0 is Closing,
        spec_handle_event(WindowState::Visible, e).1 is RequestDestroy,
        spec_handle_event(
            spec_handle_event(WindowState::Visible, e).0,
            WindowEvent::Destroyed,
        ) == (WindowState::Terminated, WindowAction::Quit { exit_code: 0 }),
{
}

} // verus!
