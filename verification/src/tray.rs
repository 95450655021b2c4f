//! What the tray menu's entries do.
use vstd::prelude::*;

use crate::text::str_eq;

verus! {

/// What choosing a tray menu entry does.
#[derive(Debug, Clone, Copy, PartialEq, Eq, Structural)]
pub enum MenuAction {
    /// Quit the application.
    Quit,
    /// Show the main window and give it the focus.
    ShowWindow,
    /// Nothing.
    Nothing,
}

/// What the entry with id `id` does: `quit` quits, `window` shows the main
/// window, any other does nothing.
pub open spec fn menu_action_of(id: Seq<char>) -> MenuAction {
    if id == "quit"@ {
        MenuAction::Quit
    } else if id == "window"@ {
        MenuAction::ShowWindow
    } else {
        MenuAction::Nothing
    }
}

/// What the tray menu entry with id `id` does.
pub fn menu_action(id: &str) -> (r: MenuAction)
    ensures
        r == menu_action_of(id@),
{
    if str_eq(id, "quit") {
        MenuAction::Quit
    } else if str_eq(id, "window") {
        MenuAction::ShowWindow
    } else {
        MenuAction::Nothing
    }
}

} // verus!
