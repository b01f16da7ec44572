//! What the shell guarantees, stated over the desktop model.

use vstd::prelude::*;
use crate::command::{ActivationPolicy, Command};
use crate::desktop::{prevents_close, succeeded, Desktop, Status, Window};
use crate::event::{Event, MouseButton, MouseButtonState, TrayIconEvent, WindowEvent};
use crate::launch::has_marker;
use crate::menu::{MENU_QUIT, MENU_SHOW};
use crate::shell::{commands_for, launch_commands, restore_commands, window_commands};

verus! {

/// Carrying out a list with one more command at its end is carrying out the
/// list and then that command.
pub proof fn lemma_after_one_more(
    desktop: Desktop,
    commands: Seq<Command>,
    command: Command,
    outcomes: Seq<bool>,
)
    ensures
        desktop.after_commands(commands.push(command), outcomes) == desktop.after_commands(
            commands,
            outcomes,
        ).after_command(command, succeeded(outcomes, commands.len() as int)),
{
    assert(commands.push(command).drop_last() =~= commands);
}

/// Once the process has stopped, no command changes anything.
pub proof fn lemma_stopped_stays(desktop: Desktop, commands: Seq<Command>, outcomes: Seq<bool>)
    requires
        !desktop.running(),
    ensures
        desktop.after_commands(commands, outcomes) == desktop,
    decreases commands.len(),
{
    if commands.len() > 0 {
        lemma_stopped_stays(desktop, commands.drop_last(), outcomes);
    }
}

/// What bringing the window back does, command by command.
proof fn lemma_after_restore(desktop: Desktop, outcomes: Seq<bool>)
    ensures
        desktop.after_commands(restore_commands(true), outcomes) == desktop.after_command(
            Command::SetActivationPolicy(ActivationPolicy::Regular),
            succeeded(outcomes, 0),
        ).after_command(Command::Unminimize, succeeded(outcomes, 1)).after_command(
            Command::Show,
            succeeded(outcomes, 2),
        ).after_command(Command::Focus, succeeded(outcomes, 3)),
{
    let c0 = Seq::<Command>::empty();
    let c1 = c0.push(Command::SetActivationPolicy(ActivationPolicy::Regular));
    let c2 = c1.push(Command::Unminimize);
    let c3 = c2.push(Command::Show);
    let c4 = c3.push(Command::Focus);
    assert(c4 =~= restore_commands(true));
    lemma_after_one_more(desktop, c0, Command::SetActivationPolicy(ActivationPolicy::Regular), outcomes);
    lemma_after_one_more(desktop, c1, Command::Unminimize, outcomes);
    lemma_after_one_more(desktop, c2, Command::Show, outcomes);
    lemma_after_one_more(desktop, c3, Command::Focus, outcomes);
}

/// What the answer to a close request does, command by command.
proof fn lemma_after_close(desktop: Desktop, outcomes: Seq<bool>)
    ensures
        desktop.after_commands(window_commands(WindowEvent::CloseRequested), outcomes)
            == desktop.after_command(Command::Hide, succeeded(outcomes, 0)).after_command(
            Command::SetActivationPolicy(ActivationPolicy::Accessory),
            succeeded(outcomes, 1),
        ).after_command(Command::PreventClose, succeeded(outcomes, 2)),
        prevents_close(window_commands(WindowEvent::CloseRequested)),
{
    let c0 = Seq::<Command>::empty();
    let c1 = c0.push(Command::Hide);
    let c2 = c1.push(Command::SetActivationPolicy(ActivationPolicy::Accessory));
    let c3 = c2.push(Command::PreventClose);
    assert(c3 =~= window_commands(WindowEvent::CloseRequested));
    assert(c3[2] == Command::PreventClose);
    lemma_after_one_more(desktop, c0, Command::Hide, outcomes);
    lemma_after_one_more(desktop, c1, Command::SetActivationPolicy(ActivationPolicy::Accessory), outcomes);
    lemma_after_one_more(desktop, c2, Command::PreventClose, outcomes);
}

/// What the answer to a launch does, command by command.
proof fn lemma_after_launch(desktop: Desktop, autostart: bool, outcomes: Seq<bool>)
    ensures
        ({
            let has_window = desktop.window is Some;
            let after = desktop.after_commands(launch_commands(autostart, has_window), outcomes);
            if !autostart {
                after == desktop.after_command(Command::BuildTray, succeeded(outcomes, 0))
            } else if has_window {
                after == desktop.after_command(Command::Hide, succeeded(outcomes, 0)).after_command(
                    Command::SetActivationPolicy(ActivationPolicy::Accessory),
                    succeeded(outcomes, 1),
                ).after_command(Command::BuildTray, succeeded(outcomes, 2))
            } else {
                after == desktop.after_command(
                    Command::SetActivationPolicy(ActivationPolicy::Accessory),
                    succeeded(outcomes, 0),
                ).after_command(Command::BuildTray, succeeded(outcomes, 1))
            }
        }),
{
    let has_window = desktop.window is Some;
    let hide_dock = Command::SetActivationPolicy(ActivationPolicy::Accessory);
    let c0 = Seq::<Command>::empty();
    if !autostart {
        assert(c0.push(Command::BuildTray) =~= launch_commands(autostart, has_window));
        lemma_after_one_more(desktop, c0, Command::BuildTray, outcomes);
    } else if has_window {
        let c1 = c0.push(Command::Hide);
        let c2 = c1.push(hide_dock);
        assert(c2.push(Command::BuildTray) =~= launch_commands(autostart, has_window));
        lemma_after_one_more(desktop, c0, Command::Hide, outcomes);
        lemma_after_one_more(desktop, c1, hide_dock, outcomes);
        lemma_after_one_more(desktop, c2, Command::BuildTray, outcomes);
    } else {
        let c1 = c0.push(hide_dock);
        assert(c1.push(Command::BuildTray) =~= launch_commands(autostart, has_window));
        lemma_after_one_more(desktop, c0, hide_dock, outcomes);
        lemma_after_one_more(desktop, c1, Command::BuildTray, outcomes);
    }
}

/// The two menu identifiers are told apart.
proof fn lemma_menu_ids_differ()
    ensures
        MENU_SHOW@ != MENU_QUIT@,
{
    reveal_strlit("show");
    reveal_strlit("quit");
    assert(MENU_SHOW@[0] != MENU_QUIT@[0]);
}

/// A launch at login ends with the window off screen, the dock entry hidden
/// and the process running, provided the window was invisible already or
/// hiding it (the first call) took effect, and the tray (the last call)
/// could be built.
pub proof fn lemma_autostart_launch_starts_hidden(
    desktop: Desktop,
    event: Event,
    outcomes: Seq<bool>,
)
    requires
        desktop.running(),
        event matches Event::Launch { args } && has_marker(args@),
        desktop.window_hidden() || succeeded(outcomes, 0),
        succeeded(outcomes, commands_for(event, desktop.window is Some).len() - 1),
    ensures
        desktop.after_event(event, outcomes).window_hidden(),
        desktop.after_event(event, outcomes).dock_hidden(),
        desktop.after_event(event, outcomes).running(),
{
    lemma_after_launch(desktop, true, outcomes);
}

/// A launch by hand leaves the window and the dock entry exactly as the host
/// brought them up, whatever becomes of the tray.
pub proof fn lemma_plain_launch_keeps_window_and_dock(
    desktop: Desktop,
    event: Event,
    outcomes: Seq<bool>,
)
    requires
        event matches Event::Launch { args } && !has_marker(args@),
    ensures
        desktop.after_event(event, outcomes).window == desktop.window,
        desktop.after_event(event, outcomes).policy == desktop.policy,
{
    lemma_after_launch(desktop, false, outcomes);
}

/// A close request does not close: the window is still there, invisible,
/// the dock entry is hidden and the process runs on, provided the window was
/// invisible already or hiding it took effect.
pub proof fn lemma_close_request_hides(desktop: Desktop, outcomes: Seq<bool>)
    requires
        desktop.running(),
        desktop.window is Some,
        !desktop.window.unwrap().visible || succeeded(outcomes, 0),
    ensures
        ({
            let after = desktop.after_event(Event::Window(WindowEvent::CloseRequested), outcomes);
            &&& after.window == Some(Window { visible: false, ..desktop.window.unwrap() })
            &&& after.dock_hidden()
            &&& after.running()
            &&& after.tray == desktop.tray
        }),
{
    lemma_after_close(desktop, outcomes);
}

/// After a close request, choosing "show" brings the application back: the
/// window is visible again and the dock entry is restored where the host has
/// one, provided showing the window took effect.
pub proof fn lemma_show_after_close_restores(
    desktop: Desktop,
    show: Event,
    close_outcomes: Seq<bool>,
    show_outcomes: Seq<bool>,
)
    requires
        desktop.running(),
        desktop.window is Some,
        show matches Event::Menu { id } && id@ == MENU_SHOW@,
        succeeded(show_outcomes, 2),
    ensures
        ({
            let closed = desktop.after_event(
                Event::Window(WindowEvent::CloseRequested),
                close_outcomes,
            );
            let shown = closed.after_event(show, show_outcomes);
            &&& shown.window is Some
            &&& shown.window.unwrap().visible
            &&& !shown.dock_hidden() <==> desktop.policy is Some
            &&& shown.running()
        }),
{
    lemma_after_close(desktop, close_outcomes);
    let closed = desktop.after_event(Event::Window(WindowEvent::CloseRequested), close_outcomes);
    lemma_after_restore(closed, show_outcomes);
}

/// Choosing "show" while the window is minimised leaves it restored, visible
/// and focused, provided each of the three window calls took effect or had
/// nothing left to do.
pub proof fn lemma_show_restores_minimized_window(
    desktop: Desktop,
    show: Event,
    outcomes: Seq<bool>,
)
    requires
        desktop.running(),
        desktop.window is Some,
        desktop.window.unwrap().minimized,
        show matches Event::Menu { id } && id@ == MENU_SHOW@,
        succeeded(outcomes, 1),
        desktop.window.unwrap().visible || succeeded(outcomes, 2),
        desktop.window.unwrap().focused || succeeded(outcomes, 3),
    ensures
        desktop.after_event(show, outcomes).window == Some(
            Window { visible: true, minimized: false, focused: true },
        ),
{
    lemma_after_restore(desktop, outcomes);
}

/// Choosing "quit" ends the process with exit code 0 and touches nothing else.
pub proof fn lemma_quit_exits_with_zero(desktop: Desktop, quit: Event, outcomes: Seq<bool>)
    requires
        desktop.running(),
        quit matches Event::Menu { id } && id@ == MENU_QUIT@,
    ensures
        desktop.after_event(quit, outcomes) == (Desktop { status: Status::Exited(0), ..desktop }),
{
    lemma_menu_ids_differ();
    let c0 = Seq::<Command>::empty();
    assert(c0.push(Command::Exit(0)) =~= seq![Command::Exit(0)]);
    lemma_after_one_more(desktop, c0, Command::Exit(0), outcomes);
}

/// Releasing the left button over the tray icon does what choosing "show"
/// does, whatever the outcomes of the calls.
pub proof fn lemma_left_release_acts_as_show(desktop: Desktop, show: Event, outcomes: Seq<bool>)
    requires
        show matches Event::Menu { id } && id@ == MENU_SHOW@,
    ensures
        desktop.after_event(
            Event::Tray(
                TrayIconEvent::Click {
                    button: MouseButton::Left,
                    button_state: MouseButtonState::Up,
                },
            ),
            outcomes,
        ) == desktop.after_event(show, outcomes),
{
}

/// Any other tray icon event, a right click or a button going down among
/// them, changes nothing.
pub proof fn lemma_other_tray_events_change_nothing(
    desktop: Desktop,
    tray: TrayIconEvent,
    outcomes: Seq<bool>,
)
    requires
        !tray.is_left_release(),
    ensures
        desktop.after_event(Event::Tray(tray), outcomes) == desktop,
{
}

/// A menu identifier that is not one of the menu's own changes nothing.
pub proof fn lemma_unknown_menu_id_changes_nothing(
    desktop: Desktop,
    event: Event,
    outcomes: Seq<bool>,
)
    requires
        event matches Event::Menu { id } && id@ != MENU_SHOW@ && id@ != MENU_QUIT@,
    ensures
        desktop.after_event(event, outcomes) == desktop,
{
}

/// A failed window call is dropped: it leaves the desktop as it was, and the
/// commands after it are carried out all the same.
pub proof fn lemma_failed_window_call_is_dropped(desktop: Desktop, command: Command)
    requires
        command == Command::Unminimize || command == Command::Show || command == Command::Focus
            || command == Command::Hide,
    ensures
        desktop.after_command(command, false) == desktop,
{
}

/// Once the process has stopped, no event changes anything.
pub proof fn lemma_no_event_after_stop(desktop: Desktop, event: Event, outcomes: Seq<bool>)
    requires
        !desktop.running(),
    ensures
        desktop.after_event(event, outcomes) == desktop,
{
    lemma_stopped_stays(desktop, commands_for(event, desktop.window is Some), outcomes);
}

} // verus!
