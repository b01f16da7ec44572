//! A model of the desktop the shell acts on: what each command does to the
//! main window, the dock entry and the process, and what a failed call leaves
//! behind.

use vstd::prelude::*;
use crate::command::{ActivationPolicy, Command, Severity};
use crate::event::{Event, WindowEvent};
use crate::shell::{commands_for, dispatch};

verus! {

/// The three facts about the main window that the shell's commands write.
#[derive(Clone, Copy, Debug, PartialEq, Eq)]
pub struct Window {
    pub visible: bool,
    pub minimized: bool,
    pub focused: bool,
}

/// Whether the process is still there.
#[derive(Clone, Copy, Debug, PartialEq, Eq)]
pub enum Status {
    /// The event loop is running.
    Running,
    /// The process has ended with this exit code.
    Exited(i32),
    /// The launch was aborted by a fatal failure.
    Aborted,
}

/// The desktop as far as the shell can change it.
#[derive(Clone, Copy, Debug, PartialEq, Eq)]
pub struct Desktop {
    /// The main window; `None` when it does not exist.
    pub window: Option<Window>,
    /// The activation policy; `None` on a host that has no such concept and
    /// keeps the application out of the taskbar by configuration.
    pub policy: Option<ActivationPolicy>,
    /// Whether the tray icon has been built.
    pub tray: bool,
    /// Whether the process is still there.
    pub status: Status,
}

/// Whether the call at position `i` took effect. A call without a reported
/// outcome counts as one that did.
pub open spec fn succeeded(outcomes: Seq<bool>, i: int) -> bool {
    0 <= i < outcomes.len() ==> outcomes[i]
}

/// Whether the answer to an event suppresses the default handling of a close
/// request.
pub open spec fn prevents_close(commands: Seq<Command>) -> bool {
    commands.contains(Command::PreventClose)
}

impl Window {
    /// The window after a window command that took effect; any other
    /// command leaves it as it is.
    pub open spec fn after_command(self, command: Command) -> Window {
        match command {
            Command::Unminimize => Window { minimized: false, ..self },
            Command::Show => Window { visible: true, ..self },
            Command::Focus => Window { focused: true, ..self },
            Command::Hide => Window { visible: false, ..self },
            _ => self,
        }
    }
}

impl Desktop {
    /// The process is still there.
    pub open spec fn running(self) -> bool {
        self.status == Status::Running
    }

    /// No main window is on screen: there is none, or it is invisible.
    pub open spec fn window_hidden(self) -> bool {
        self.window matches Some(w) ==> !w.visible
    }

    /// The application has no dock or taskbar entry.
    pub open spec fn dock_hidden(self) -> bool {
        self.policy != Some(ActivationPolicy::Regular)
    }

    /// The desktop after the host has made the call behind `command`, which
    /// took effect (`ok`) or failed.
    ///
    /// Nothing changes once the process has stopped. A failed call changes
    /// nothing either, unless the failure is fatal: then the launch is aborted.
    /// A window command without a window, and an activation policy on a host
    /// without that concept, change nothing.
    pub open spec fn after_command(self, command: Command, ok: bool) -> Desktop {
        if !self.running() {
            self
        } else if command.can_fail() && !ok {
            if command.severity() == Severity::Fatal {
                Desktop { status: Status::Aborted, ..self }
            } else {
                self
            }
        } else {
            match command {
                Command::SetActivationPolicy(policy) => Desktop {
                    policy: if self.policy is Some {
                        Some(policy)
                    } else {
                        None
                    },
                    ..self
                },
                Command::Unminimize | Command::Show | Command::Focus | Command::Hide => Desktop {
                    window: match self.window {
                        Some(w) => Some(w.after_command(command)),
                        None => None,
                    },
                    ..self
                },
                Command::PreventClose => self,
                Command::BuildTray => Desktop { tray: true, ..self },
                Command::Exit(code) => Desktop { status: Status::Exited(code), ..self },
            }
        }
    }

    /// The desktop after the host has made the calls behind `commands` in
    /// order, the call at position `i` with the outcome `succeeded(outcomes, i)`.
    pub open spec fn after_commands(self, commands: Seq<Command>, outcomes: Seq<bool>) -> Desktop
        decreases commands.len(),
    {
        if commands.len() == 0 {
            self
        } else {
            self.after_commands(commands.drop_last(), outcomes).after_command(
                commands.last(),
                succeeded(outcomes, commands.len() - 1),
            )
        }
    }

    /// The desktop after the host has answered `event` with `commands`.
    ///
    /// A close request that the answer does not suppress takes its default
    /// course: the window is gone.
    pub open spec fn after_answer(
        self,
        event: Event,
        commands: Seq<Command>,
        outcomes: Seq<bool>,
    ) -> Desktop {
        let after = self.after_commands(commands, outcomes);
        if event == Event::Window(WindowEvent::CloseRequested) && after.running()
            && !prevents_close(commands) {
            Desktop { window: None, ..after }
        } else {
            after
        }
    }

    /// The desktop after `event` has been answered by the shell.
    pub open spec fn after_event(self, event: Event, outcomes: Seq<bool>) -> Desktop {
        self.after_answer(event, commands_for(event, self.window is Some), outcomes)
    }
}

/// Whether `commands` holds the command that suppresses a close.
pub fn has_prevent_close(commands: &Vec<Command>) -> (yes: bool)
    ensures
        yes == prevents_close(commands@),
{
    let mut i: usize = 0;
    while i < commands.len()
        invariant
            i <= commands.len(),
            forall|j: int| 0 <= j < i ==> commands@[j] != Command::PreventClose,
        decreases commands.len() - i,
    {
        if commands[i] == Command::PreventClose {
            return true;
        }
        i += 1;
    }
    false
}

impl Window {
    /// Carries out one window command on this window.
    pub fn apply(&mut self, command: Command)
        ensures
            *final(self) == old(self).after_command(command),
    {
        match command {
            Command::Unminimize => {
                self.minimized = false;
            },
            Command::Show => {
                self.visible = true;
            },
            Command::Focus => {
                self.focused = true;
            },
            Command::Hide => {
                self.visible = false;
            },
            _ => {},
        }
    }
}

impl Desktop {
    /// A desktop right after the process has come up: the window, if there is
    /// one, visible and focused, the application in the dock where the host
    /// has one, no tray icon yet.
    pub fn fresh(has_window: bool, has_policy: bool) -> (desktop: Desktop)
        ensures
            desktop == (Desktop {
                window: if has_window {
                    Some(Window { visible: true, minimized: false, focused: true })
                } else {
                    None
                },
                policy: if has_policy {
                    Some(ActivationPolicy::Regular)
                } else {
                    None
                },
                tray: false,
                status: Status::Running,
            }),
    {
        Desktop {
            window: if has_window {
                Some(Window { visible: true, minimized: false, focused: true })
            } else {
                None
            },
            policy: if has_policy {
                Some(ActivationPolicy::Regular)
            } else {
                None
            },
            tray: false,
            status: Status::Running,
        }
    }

    /// Whether the process is still there.
    pub fn is_running(&self) -> (yes: bool)
        ensures
            yes == self.running(),
    {
        match self.status {
            Status::Running => true,
            _ => false,
        }
    }

    /// Carries out one command, which took effect (`ok`) or failed.
    pub fn apply(&mut self, command: Command, ok: bool)
        ensures
            *final(self) == old(self).after_command(command, ok),
    {
        if !self.is_running() {
            return ;
        }
        if command.can_fail() && !ok {
            match command.severity() {
                Severity::Fatal => {
                    self.status = Status::Aborted;
                },
                Severity::Tolerated => {},
            }
            return ;
        }
        match command {
            Command::SetActivationPolicy(policy) => {
                if self.policy.is_some() {
                    self.policy = Some(policy);
                }
            },
            Command::Unminimize | Command::Show | Command::Focus | Command::Hide => {
                match self.window {
                    Some(mut w) => {
                        w.apply(command);
                        self.window = Some(w);
                    },
                    None => {},
                }
            },
            Command::PreventClose => {},
            Command::BuildTray => {
                self.tray = true;
            },
            Command::Exit(code) => {
                self.status = Status::Exited(code);
            },
        }
    }

    /// Carries out `commands` in order, the call at position `i` with the
    /// outcome `outcomes[i]`, or as a success where `outcomes` is shorter.
    pub fn run(&mut self, commands: &Vec<Command>, outcomes: &Vec<bool>)
        ensures
            *final(self) == old(self).after_commands(commands@, outcomes@),
    {
        let mut i: usize = 0;
        while i < commands.len()
            invariant
                i <= commands.len(),
                *self == old(self).after_commands(commands@.take(i as int), outcomes@),
            decreases commands.len() - i,
        {
            let ok = if i < outcomes.len() {
                outcomes[i]
            } else {
                true
            };
            proof {
                let next = commands@.take(i + 1);
                assert(next.drop_last() =~= commands@.take(i as int));
                assert(next.last() == commands@[i as int]);
            }
            self.apply(commands[i], ok);
            i += 1;
        }
        assert(commands@.take(i as int) =~= commands@);
    }

    /// Lets `event` happen with `commands` as the answer to it.
    pub fn answer(&mut self, event: &Event, commands: &Vec<Command>, outcomes: &Vec<bool>)
        ensures
            *final(self) == old(self).after_answer(*event, commands@, outcomes@),
    {
        self.run(commands, outcomes);
        let closing = match event {
            Event::Window(WindowEvent::CloseRequested) => true,
            _ => false,
        };
        if closing && self.is_running() && !has_prevent_close(commands) {
            self.window = None;
        }
    }

    /// Lets `event` happen with the shell's own answer to it.
    pub fn deliver(&mut self, event: &Event, outcomes: &Vec<bool>)
        ensures
            *final(self) == old(self).after_event(*event, outcomes@),
    {
        let commands = dispatch(event, self.window.is_some());
        self.answer(event, &commands, outcomes);
    }
}

} // verus!
