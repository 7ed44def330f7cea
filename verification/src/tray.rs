//! The menu-bar icon, its menu, and quitting.

use vstd::prelude::*;
use vstd::string::*;

verus! {

/// The two menu-bar icons.
#[derive(PartialEq, Eq, Structural, Clone, Copy, Debug)]
pub enum TrayIcon {
    Enabled,
    Disabled,
}

/// The icon shows whether the bell is enabled.
pub fn tray_icon_for(enabled: bool) -> (icon: TrayIcon)
    ensures
        icon == (if enabled {
            TrayIcon::Enabled
        } else {
            TrayIcon::Disabled
        }),
{
    if enabled {
        TrayIcon::Enabled
    } else {
        TrayIcon::Disabled
    }
}

/// What a menu item asks for.
#[derive(PartialEq, Eq, Structural, Clone, Copy, Debug)]
pub enum MenuCommand {
    Quit,
    OpenSettings,
    Nothing,
}

/// The command of the menu item with the given id: "quit" quits, "settings"
/// opens the settings window, any other id does nothing.
pub open spec fn menu_command_of(id: Seq<char>) -> MenuCommand {
    if id == "quit"@ {
        MenuCommand::Quit
    } else if id == "settings"@ {
        MenuCommand::OpenSettings
    } else {
        MenuCommand::Nothing
    }
}

pub fn menu_command(id: &str) -> (cmd: MenuCommand)
    ensures
        cmd == menu_command_of(id@),
{
    let id = id.to_owned();
    if id == String::from_str("quit") {
        MenuCommand::Quit
    } else if id == String::from_str("settings") {
        MenuCommand::OpenSettings
    } else {
        MenuCommand::Nothing
    }
}

/// A request to exit is refused when it carries no exit code (the last
/// window was closed) and honoured when it carries one (an explicit quit).
pub fn should_prevent_exit(code: Option<i32>) -> (prevent: bool)
    ensures
        prevent == (code is None),
{
    code.is_none()
}

} // verus!
