use tray_shell::command::{set_dock_visible, ActivationPolicy, Command, Severity};
use tray_shell::event::{Event, MouseButton, MouseButtonState, TrayIconEvent, WindowEvent};
use tray_shell::launch::{autostart_args, is_autostart, AUTOSTART_MARKER};
use tray_shell::menu::{
    menu_action, tray_menu, MenuAction, LABEL_QUIT, LABEL_SHOW, MENU_QUIT, MENU_SHOW,
    SHOW_MENU_ON_LEFT_CLICK,
};
use tray_shell::shell::{
    dispatch, on_launch, on_menu_event, on_tray_icon_event, on_window_event, restore_window,
};

fn args(list: &[&str]) -> Vec<String> {
    list.iter().map(|s| s.to_string()).collect()
}

fn restore() -> Vec<Command> {
    vec![
        Command::SetActivationPolicy(ActivationPolicy::Regular),
        Command::Unminimize,
        Command::Show,
        Command::Focus,
    ]
}

#[test]
fn dock_visible_is_regular_policy() {
    assert_eq!(set_dock_visible(true), Command::SetActivationPolicy(ActivationPolicy::Regular));
}

#[test]
fn dock_hidden_is_accessory_policy() {
    assert_eq!(set_dock_visible(false), Command::SetActivationPolicy(ActivationPolicy::Accessory));
}

#[test]
fn only_the_tray_is_fatal() {
    assert_eq!(Command::BuildTray.severity(), Severity::Fatal);
    assert_eq!(Command::Hide.severity(), Severity::Tolerated);
    assert_eq!(Command::Show.severity(), Severity::Tolerated);
    assert_eq!(Command::Focus.severity(), Severity::Tolerated);
    assert_eq!(Command::Unminimize.severity(), Severity::Tolerated);
    assert_eq!(Command::Exit(0).severity(), Severity::Tolerated);
    assert_eq!(Command::PreventClose.severity(), Severity::Tolerated);
    assert_eq!(
        Command::SetActivationPolicy(ActivationPolicy::Regular).severity(),
        Severity::Tolerated
    );
}

#[test]
fn window_calls_and_tray_can_fail() {
    assert!(Command::Hide.can_fail());
    assert!(Command::Show.can_fail());
    assert!(Command::Focus.can_fail());
    assert!(Command::Unminimize.can_fail());
    assert!(Command::BuildTray.can_fail());
    assert!(!Command::Exit(0).can_fail());
    assert!(!Command::PreventClose.can_fail());
    assert!(!Command::SetActivationPolicy(ActivationPolicy::Accessory).can_fail());
}

#[test]
fn marker_is_found_anywhere() {
    assert_eq!(AUTOSTART_MARKER, "--autostart");
    assert!(is_autostart(&args(&["app", "--autostart"])));
    assert!(is_autostart(&args(&["--autostart", "app"])));
    assert!(is_autostart(&args(&["app", "-v", "--autostart", "x"])));
}

#[test]
fn marker_must_match_whole_argument() {
    assert!(!is_autostart(&args(&[])));
    assert!(!is_autostart(&args(&["app"])));
    assert!(!is_autostart(&args(&["app", "--autostart=1"])));
    assert!(!is_autostart(&args(&["app", "autostart"])));
    assert!(!is_autostart(&args(&["app", "--AUTOSTART"])));
    assert!(!is_autostart(&args(&["app", " --autostart"])));
}

#[test]
fn registered_arguments_mark_the_next_launch() {
    let registered = autostart_args();
    assert_eq!(registered, vec!["--autostart"]);
    let mut next = args(&["app"]);
    for a in registered {
        next.push(a.to_string());
    }
    assert!(is_autostart(&next));
}

#[test]
fn menu_has_show_then_quit() {
    let menu = tray_menu();
    assert_eq!(menu.len(), 2);
    assert_eq!(menu[0].id, "show");
    assert_eq!(menu[0].label, "Anzeigen");
    assert!(menu[0].enabled);
    assert_eq!(menu[1].id, "quit");
    assert_eq!(menu[1].label, "Beenden");
    assert!(menu[1].enabled);
    assert_eq!(MENU_SHOW, "show");
    assert_eq!(MENU_QUIT, "quit");
    assert_eq!(LABEL_SHOW, "Anzeigen");
    assert_eq!(LABEL_QUIT, "Beenden");
    assert!(!SHOW_MENU_ON_LEFT_CLICK);
}

#[test]
fn menu_ids_are_the_dispatch_keys() {
    let menu = tray_menu();
    assert_eq!(menu_action(menu[0].id), Some(MenuAction::Show));
    assert_eq!(menu_action(menu[1].id), Some(MenuAction::Quit));
    assert_eq!(menu_action("Show"), None);
    assert_eq!(menu_action("Anzeigen"), None);
    assert_eq!(menu_action(""), None);
    assert_eq!(menu_action("quit "), None);
}

#[test]
fn restore_needs_a_window() {
    assert_eq!(restore_window(true), restore());
    assert_eq!(restore_window(false), Vec::<Command>::new());
}

#[test]
fn plain_launch_only_builds_the_tray() {
    assert_eq!(on_launch(&args(&["app"]), true), vec![Command::BuildTray]);
    assert_eq!(on_launch(&args(&["app"]), false), vec![Command::BuildTray]);
}

#[test]
fn autostart_launch_hides_first() {
    assert_eq!(
        on_launch(&args(&["app", "--autostart"]), true),
        vec![
            Command::Hide,
            Command::SetActivationPolicy(ActivationPolicy::Accessory),
            Command::BuildTray,
        ]
    );
    assert_eq!(
        on_launch(&args(&["app", "--autostart"]), false),
        vec![Command::SetActivationPolicy(ActivationPolicy::Accessory), Command::BuildTray]
    );
}

#[test]
fn show_restores_and_quit_exits_with_zero() {
    assert_eq!(on_menu_event("show", true), restore());
    assert_eq!(on_menu_event("show", false), Vec::<Command>::new());
    assert_eq!(on_menu_event("quit", true), vec![Command::Exit(0)]);
    assert_eq!(on_menu_event("quit", false), vec![Command::Exit(0)]);
}

#[test]
fn unknown_menu_id_is_ignored() {
    assert_eq!(on_menu_event("about", true), Vec::<Command>::new());
    assert_eq!(on_menu_event("", true), Vec::<Command>::new());
    assert_eq!(on_menu_event("SHOW", true), Vec::<Command>::new());
}

#[test]
fn only_left_release_counts() {
    let left_up =
        TrayIconEvent::Click { button: MouseButton::Left, button_state: MouseButtonState::Up };
    assert!(left_up.is_left_release());
    assert_eq!(on_tray_icon_event(left_up, true), restore());
    assert_eq!(on_tray_icon_event(left_up, false), Vec::<Command>::new());
    let others = [
        TrayIconEvent::Click { button: MouseButton::Left, button_state: MouseButtonState::Down },
        TrayIconEvent::Click { button: MouseButton::Right, button_state: MouseButtonState::Up },
        TrayIconEvent::Click { button: MouseButton::Right, button_state: MouseButtonState::Down },
        TrayIconEvent::Click { button: MouseButton::Middle, button_state: MouseButtonState::Up },
        TrayIconEvent::DoubleClick { button: MouseButton::Left },
        TrayIconEvent::Enter,
        TrayIconEvent::Move,
        TrayIconEvent::Leave,
    ];
    for event in others {
        assert!(!event.is_left_release());
        assert_eq!(on_tray_icon_event(event, true), Vec::<Command>::new());
    }
}

#[test]
fn close_request_is_answered_by_hiding() {
    assert_eq!(
        on_window_event(WindowEvent::CloseRequested),
        vec![
            Command::Hide,
            Command::SetActivationPolicy(ActivationPolicy::Accessory),
            Command::PreventClose,
        ]
    );
    assert_eq!(on_window_event(WindowEvent::Other), Vec::<Command>::new());
}

#[test]
fn dispatch_agrees_with_the_handlers() {
    let launch = Event::Launch { args: args(&["app", "--autostart"]) };
    assert_eq!(dispatch(&launch, true), on_launch(&args(&["app", "--autostart"]), true));
    let show = Event::Menu { id: "show".to_string() };
    assert_eq!(dispatch(&show, true), restore());
    assert_eq!(dispatch(&show, false), Vec::<Command>::new());
    let quit = Event::Menu { id: "quit".to_string() };
    assert_eq!(dispatch(&quit, false), vec![Command::Exit(0)]);
    let click = Event::Tray(TrayIconEvent::Click {
        button: MouseButton::Left,
        button_state: MouseButtonState::Up,
    });
    assert_eq!(dispatch(&click, true), restore());
    let close = Event::Window(WindowEvent::CloseRequested);
    assert_eq!(dispatch(&close, true), on_window_event(WindowEvent::CloseRequested));
    assert_eq!(dispatch(&Event::Window(WindowEvent::Other), true), Vec::<Command>::new());
}
