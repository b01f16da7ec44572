//! Commands: what the shell asks its host to do.

use vstd::prelude::*;

verus! {

/// How the operating system presents the process.
#[derive(Clone, Copy, Debug, PartialEq, Eq, Structural)]
pub enum ActivationPolicy {
    /// An ordinary application, present in the dock and the app switcher.
    Regular,
    /// A background accessory: no dock entry.
    Accessory,
}

/// One call the host makes on behalf of the shell.
#[derive(Clone, Copy, Debug, PartialEq, Eq, Structural)]
pub enum Command {
    /// Switch the activation policy. A host without that concept does nothing.
    SetActivationPolicy(ActivationPolicy),
    /// Take the main window out of its minimised state.
    Unminimize,
    /// Make the main window visible.
    Show,
    /// Give the main window the input focus.
    Focus,
    /// Make the main window invisible.
    Hide,
    /// Suppress the default handling of the close request being answered.
    PreventClose,
    /// Build the tray icon with its menu.
    BuildTray,
    /// End the process with this exit code.
    Exit(i32),
}

/// What the host does when a command fails.
#[derive(Clone, Copy, Debug, PartialEq, Eq, Structural)]
pub enum Severity {
    /// Drop the error and go on with the next command.
    Tolerated,
    /// Abort the launch.
    Fatal,
}

/// The activation policy under which the dock entry is visible, or hidden.
pub open spec fn policy_for(visible: bool) -> ActivationPolicy {
    if visible {
        ActivationPolicy::Regular
    } else {
        ActivationPolicy::Accessory
    }
}

/// The command that shows or hides the dock entry.
pub fn set_dock_visible(visible: bool) -> (command: Command)
    ensures
        command == Command::SetActivationPolicy(policy_for(visible)),
{
    if visible {
        Command::SetActivationPolicy(ActivationPolicy::Regular)
    } else {
        Command::SetActivationPolicy(ActivationPolicy::Accessory)
    }
}

impl Command {
    /// The four window calls and the building of the tray report an error;
    /// the other commands have nothing to report.
    pub open spec fn spec_can_fail(self) -> bool {
        self == Command::Unminimize || self == Command::Show || self == Command::Focus
            || self == Command::Hide || self == Command::BuildTray
    }

    /// Whether the host's call behind this command can report a failure.
    #[verifier::when_used_as_spec(spec_can_fail)]
    pub fn can_fail(self) -> (yes: bool)
        ensures
            yes == self.spec_can_fail(),
    {
        match self {
            Command::Unminimize | Command::Show | Command::Focus | Command::Hide
            | Command::BuildTray => true,
            Command::SetActivationPolicy(_) | Command::PreventClose | Command::Exit(_) => false,
        }
    }

    /// Only a failure to build the tray is fatal; every other failure is dropped.
    pub open spec fn spec_severity(self) -> Severity {
        if self == Command::BuildTray {
            Severity::Fatal
        } else {
            Severity::Tolerated
        }
    }

    /// What the host does when this command fails.
    #[verifier::when_used_as_spec(spec_severity)]
    pub fn severity(self) -> (severity: Severity)
        ensures
            severity == self.spec_severity(),
    {
        match self {
            Command::BuildTray => Severity::Fatal,
            _ => Severity::Tolerated,
        }
    }
}

} // verus!
