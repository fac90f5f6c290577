//! The tray icon and the main window: what a choice in the tray menu asks
//! for, and whether a window is to be shown.

use vstd::prelude::*;

verus! {

/// What a choice in the tray menu asks for.
#[derive(Clone, Copy, Debug, PartialEq, Eq, Structural)]
pub enum TrayCommand {
    /// Show the main window.
    Show,
    /// End the application.
    Quit,
    /// Nothing.
    Ignore,
}

/// What the menu item with the identifier `id` asks for.
pub open spec fn tray_command(id: Seq<char>) -> TrayCommand {
    if id == "show"@ {
        TrayCommand::Show
    } else if id == "quit"@ {
        TrayCommand::Quit
    } else {
        TrayCommand::Ignore
    }
}

/// What the menu item with the identifier `id` asks for.
pub fn tray_menu_command(id: &str) -> (command: TrayCommand)
    ensures
        command == tray_command(id@),
{
    let id = id.to_owned();
    if id == "show".to_owned() {
        TrayCommand::Show
    } else if id == "quit".to_owned() {
        TrayCommand::Quit
    } else {
        TrayCommand::Ignore
    }
}

/// Whether a window or a panel is to be shown or opened: as preferred, and
/// without a preference the opposite of what it is now.
pub fn toggled(preferred: Option<bool>, current: bool) -> (open: bool)
    ensures
        open == match preferred {
            Some(wanted) => wanted,
            None => !current,
        },
{
    match preferred {
        Some(wanted) => wanted,
        None => !current,
    }
}

} // verus!
