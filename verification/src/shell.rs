//! The shell's handlers: for each event, the commands that answer it.
//!
//! A handler never fails and never looks at how an earlier command went: the
//! list it returns is fixed by the event and by whether the main window
//! exists. The host carries the list out in order.

use vstd::prelude::*;
use crate::command::{set_dock_visible, ActivationPolicy, Command};
use crate::event::{Event, TrayIconEvent, WindowEvent};
use crate::launch::{has_marker, is_autostart};
use crate::menu::{action_of, menu_action, MenuAction};

verus! {

/// Bringing the window back: dock entry first, then out of the minimised
/// state, then visible, then focused. Nothing at all without a window.
pub open spec fn restore_commands(has_window: bool) -> Seq<Command> {
    if has_window {
        seq![
            Command::SetActivationPolicy(ActivationPolicy::Regular),
            Command::Unminimize,
            Command::Show,
            Command::Focus,
        ]
    } else {
        Seq::empty()
    }
}

/// The answer to a launch: a launch at login hides the window, if there is
/// one, and the dock entry; every launch then builds the tray.
pub open spec fn launch_commands(autostart: bool, has_window: bool) -> Seq<Command> {
    let hide_window = if autostart && has_window {
        seq![Command::Hide]
    } else {
        Seq::empty()
    };
    let hide_dock = if autostart {
        seq![Command::SetActivationPolicy(ActivationPolicy::Accessory)]
    } else {
        Seq::empty()
    };
    hide_window + hide_dock + seq![Command::BuildTray]
}

/// The answer to a choice in the tray menu.
pub open spec fn menu_commands(id: Seq<char>, has_window: bool) -> Seq<Command> {
    match action_of(id) {
        Some(MenuAction::Show) => restore_commands(has_window),
        Some(MenuAction::Quit) => seq![Command::Exit(0)],
        None => Seq::empty(),
    }
}

/// The answer to a tray icon event.
pub open spec fn tray_commands(event: TrayIconEvent, has_window: bool) -> Seq<Command> {
    if event.is_left_release() {
        restore_commands(has_window)
    } else {
        Seq::empty()
    }
}

/// The answer to a window event: a close request hides the window and the
/// dock entry and is then suppressed.
pub open spec fn window_commands(event: WindowEvent) -> Seq<Command> {
    if event == WindowEvent::CloseRequested {
        seq![
            Command::Hide,
            Command::SetActivationPolicy(ActivationPolicy::Accessory),
            Command::PreventClose,
        ]
    } else {
        Seq::empty()
    }
}

/// The answer to any event.
pub open spec fn commands_for(event: Event, has_window: bool) -> Seq<Command> {
    match event {
        Event::Launch { args } => launch_commands(has_marker(args@), has_window),
        Event::Menu { id } => menu_commands(id@, has_window),
        Event::Tray(tray) => tray_commands(tray, has_window),
        Event::Window(window) => window_commands(window),
    }
}

/// The commands that bring the main window back.
pub fn restore_window(has_window: bool) -> (commands: Vec<Command>)
    ensures
        commands@ == restore_commands(has_window),
{
    let mut commands: Vec<Command> = Vec::new();
    if has_window {
        commands.push(set_dock_visible(true));
        commands.push(Command::Unminimize);
        commands.push(Command::Show);
        commands.push(Command::Focus);
    }
    assert(commands@ =~= restore_commands(has_window));
    commands
}

/// Answers the launch of the process.
pub fn on_launch(args: &Vec<String>, has_window: bool) -> (commands: Vec<Command>)
    ensures
        commands@ == launch_commands(has_marker(args@), has_window),
{
    let mut commands: Vec<Command> = Vec::new();
    if is_autostart(args) {
        if has_window {
            commands.push(Command::Hide);
        }
        commands.push(set_dock_visible(false));
    }
    commands.push(Command::BuildTray);
    assert(commands@ =~= launch_commands(has_marker(args@), has_window));
    commands
}

/// Answers a choice in the tray menu. An identifier that is not one of the
/// menu's own is ignored.
pub fn on_menu_event(id: &str, has_window: bool) -> (commands: Vec<Command>)
    ensures
        commands@ == menu_commands(id@, has_window),
{
    match menu_action(id) {
        Some(MenuAction::Show) => restore_window(has_window),
        Some(MenuAction::Quit) => {
            let mut commands: Vec<Command> = Vec::new();
            commands.push(Command::Exit(0));
            assert(commands@ =~= menu_commands(id@, has_window));
            commands
        },
        None => Vec::new(),
    }
}

/// Answers a tray icon event. Only a release of the left button does anything.
pub fn on_tray_icon_event(event: TrayIconEvent, has_window: bool) -> (commands: Vec<Command>)
    ensures
        commands@ == tray_commands(event, has_window),
{
    if event.is_left_release() {
        restore_window(has_window)
    } else {
        Vec::new()
    }
}

/// Answers a window event. Only a close request does anything.
pub fn on_window_event(event: WindowEvent) -> (commands: Vec<Command>)
    ensures
        commands@ == window_commands(event),
{
    let mut commands: Vec<Command> = Vec::new();
    match event {
        WindowEvent::CloseRequested => {
            commands.push(Command::Hide);
            commands.push(set_dock_visible(false));
            commands.push(Command::PreventClose);
        },
        WindowEvent::Other => {},
    }
    assert(commands@ =~= window_commands(event));
    commands
}

/// Answers any event: the one entry point a host needs.
pub fn dispatch(event: &Event, has_window: bool) -> (commands: Vec<Command>)
    ensures
        commands@ == commands_for(*event, has_window),
{
    match event {
        Event::Launch { args } => on_launch(args, has_window),
        Event::Menu { id } => on_menu_event(id.as_str(), has_window),
        Event::Tray(tray) => on_tray_icon_event(*tray, has_window),
        Event::Window(window) => on_window_event(*window),
    }
}

} // verus!
