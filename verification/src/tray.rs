//! Tray-menu decision rules: which action a menu item id stands for. The
//! tray icon itself and the OS menu events belong to the embedding program;
//! it hands the clicked item's id in as a plain string.

use vstd::prelude::*;

use crate::text::str_eq;

verus! {

/// The menu item id that opens the settings window.
pub const MENU_SETTINGS: &'static str = "settings";

/// The menu item id that exits the program.
pub const MENU_EXIT: &'static str = "exit";

/// What a menu click asks for.
#[derive(Debug, Clone, Copy, PartialEq, Eq, Structural)]
pub enum MenuAction {
    OpenSettings,
    Exit,
    NoAction,
}

/// The action a menu item id stands for; unknown ids ask for nothing.
pub open spec fn spec_menu_action(id: Seq<char>) -> MenuAction {
    if id == "settings"@ {
        MenuAction::OpenSettings
    } else if id == "exit"@ {
        MenuAction::Exit
    } else {
        MenuAction::NoAction
    }
}

/// Resolve a clicked menu item id.
pub fn menu_action_for_id(id: &str) -> (r: MenuAction)
    ensures
        r == spec_menu_action(id@),
{
    if str_eq(id, MENU_SETTINGS) {
        MenuAction::OpenSettings
    } else if str_eq(id, MENU_EXIT) {
        MenuAction::Exit
    } else {
        MenuAction::NoAction
    }
}

} // verus!
