//! Events: what the host reports to the shell.

use vstd::prelude::*;

verus! {

/// The mouse button behind a tray icon event.
#[derive(Clone, Copy, Debug, PartialEq, Eq, Structural)]
pub enum MouseButton {
    Left,
    Right,
    Middle,
}

/// Whether the button went down or came back up.
#[derive(Clone, Copy, Debug, PartialEq, Eq, Structural)]
pub enum MouseButtonState {
    Up,
    Down,
}

/// Something the pointer did over the tray icon.
#[derive(Clone, Copy, Debug, PartialEq, Eq, Structural)]
pub enum TrayIconEvent {
    Click { button: MouseButton, button_state: MouseButtonState },
    DoubleClick { button: MouseButton },
    Enter,
    Move,
    Leave,
}

/// Something that happened to a window. Only the close request matters to the
/// shell; everything else is `Other`.
#[derive(Clone, Copy, Debug, PartialEq, Eq, Structural)]
pub enum WindowEvent {
    CloseRequested,
    Other,
}

/// Every event the shell answers.
#[derive(Debug)]
pub enum Event {
    /// The process has started with these command-line arguments.
    Launch { args: Vec<String> },
    /// The tray menu item with this identifier was chosen.
    Menu { id: String },
    /// The pointer did something over the tray icon.
    Tray(TrayIconEvent),
    /// Something happened to a window.
    Window(WindowEvent),
}

impl TrayIconEvent {
    /// A release of the left button: the one gesture that brings the window back.
    pub open spec fn spec_is_left_release(self) -> bool {
        self == (TrayIconEvent::Click {
            button: MouseButton::Left,
            button_state: MouseButtonState::Up,
        })
    }

    /// Whether this is a release of the left button over the icon.
    #[verifier::when_used_as_spec(spec_is_left_release)]
    pub fn is_left_release(self) -> (yes: bool)
        ensures
            yes == self.spec_is_left_release(),
    {
        match self {
            TrayIconEvent::Click { button: MouseButton::Left, button_state: MouseButtonState::Up } => true,
            _ => false,
        }
    }
}

} // verus!
