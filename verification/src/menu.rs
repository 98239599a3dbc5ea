//! The static tray context menu.
//!
//! The menu is fixed at two entries — Show Window, then Quit behind a
//! separator — built once during setup and immutable thereafter.

use vstd::prelude::*;
use crate::routing::{menu_route_spec, ShellAction};

verus! {

/// One entry of the tray context menu.
pub struct MenuEntry {
    /// The identifier the menu event router dispatches on; unique.
    pub id: String,
    /// The text the entry shows.
    pub label: String,
    /// Whether a visual separator stands before this entry.
    pub separator_before: bool,
}

/// Builds the menu definition: Show Window first, then Quit behind a
/// separator, with distinct ids that the router maps to bringing the
/// window to the front and to exiting.
pub fn menu_definition() -> (m: Vec<MenuEntry>)
    ensures
        m@.len() == 2,
        m@[0].id@ == "show"@,
        m@[0].label@ == "Show Window"@,
        !m@[0].separator_before,
        m@[1].id@ == "quit"@,
        m@[1].label@ == "Quit"@,
        m@[1].separator_before,
        m@[0].id@ != m@[1].id@,
        menu_route_spec(m@[0].id@) == ShellAction::ShowAndFocusMain,
        menu_route_spec(m@[1].id@) == ShellAction::ExitProcess,
{
    let mut m: Vec<MenuEntry> = Vec::new();
    m.push(MenuEntry {
        id: "show".to_owned(),
        label: "Show Window".to_owned(),
        separator_before: false,
    });
    m.push(MenuEntry {
        id: "quit".to_owned(),
        label: "Quit".to_owned(),
        separator_before: true,
    });
    assert("show"@ != "quit"@) by {
        reveal_strlit("show");
        reveal_strlit("quit");
        assert("show"@[0] == 's' && "quit"@[0] == 'q');
    }
    m
}

} // verus!
