//! The tray menu: its two entries, and what choosing one means.

use vstd::prelude::*;
use vstd::string::StringExecFns;

verus! {

/// Identifier of the entry that brings the window back.
pub const MENU_SHOW: &'static str = "show";

/// Identifier of the entry that ends the process.
pub const MENU_QUIT: &'static str = "quit";

/// Label of the entry that brings the window back.
pub const LABEL_SHOW: &'static str = "Anzeigen";

/// Label of the entry that ends the process.
pub const LABEL_QUIT: &'static str = "Beenden";

/// A left click on the tray icon is the shell's own gesture, so the menu
/// must not open on it.
pub const SHOW_MENU_ON_LEFT_CLICK: bool = false;

/// One entry of the tray menu.
#[derive(Clone, Copy, Debug)]
pub struct MenuEntry {
    /// The key under which a choice of this entry is reported.
    pub id: &'static str,
    /// The text shown to the user.
    pub label: &'static str,
    /// Whether the entry can be chosen.
    pub enabled: bool,
}

/// What a menu entry stands for.
#[derive(Clone, Copy, Debug, PartialEq, Eq, Structural)]
pub enum MenuAction {
    Show,
    Quit,
}

/// The action behind a menu identifier; `None` for an identifier that is
/// not one of the menu's own.
pub open spec fn action_of(id: Seq<char>) -> Option<MenuAction> {
    if id == MENU_SHOW@ {
        Some(MenuAction::Show)
    } else if id == MENU_QUIT@ {
        Some(MenuAction::Quit)
    } else {
        None
    }
}

/// The action behind a menu identifier.
pub fn menu_action(id: &str) -> (action: Option<MenuAction>)
    ensures
        action == action_of(id@),
{
    let id = String::from_str(id);
    if id == String::from_str(MENU_SHOW) {
        Some(MenuAction::Show)
    } else if id == String::from_str(MENU_QUIT) {
        Some(MenuAction::Quit)
    } else {
        None
    }
}

/// The entries of the tray menu, in the order in which they are shown:
/// "show" first, then "quit", both enabled.
pub fn tray_menu() -> (entries: Vec<MenuEntry>)
    ensures
        entries@.len() == 2,
        entries@[0].id@ == MENU_SHOW@,
        entries@[0].label@ == LABEL_SHOW@,
        entries@[0].enabled,
        entries@[1].id@ == MENU_QUIT@,
        entries@[1].label@ == LABEL_QUIT@,
        entries@[1].enabled,
        action_of(entries@[0].id@) == Some(MenuAction::Show),
        action_of(entries@[1].id@) == Some(MenuAction::Quit),
{
    proof {
        reveal_strlit("show");
        reveal_strlit("quit");
        assert(MENU_SHOW@[0] != MENU_QUIT@[0]);
    }
    let mut entries: Vec<MenuEntry> = Vec::new();
    entries.push(MenuEntry { id: MENU_SHOW, label: LABEL_SHOW, enabled: true });
    entries.push(MenuEntry { id: MENU_QUIT, label: LABEL_QUIT, enabled: true });
    entries
}

} // verus!
