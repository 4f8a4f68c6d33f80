//! Requests that concern the settings, and what follows at startup.

use crate::settings::model::GeneralSettings;
use crate::text::{ends_with, has_suffix, str_eq};
use vstd::prelude::*;

verus! {

/// What to do about the launch at login.
#[derive(Debug, Clone, Copy, PartialEq, Eq, Structural)]
pub enum AutostartAction {
    Keep,
    Enable,
    Disable,
}

/// Decides what to do so that the launch at login is as the settings want
/// it, given how it is now.
pub fn sync_autostart_state(current: bool, enabled: bool) -> (action: AutostartAction)
    ensures
        action == if current == enabled {
            AutostartAction::Keep
        } else if enabled {
            AutostartAction::Enable
        } else {
            AutostartAction::Disable
        },
{
    if current == enabled {
        AutostartAction::Keep
    } else if enabled {
        AutostartAction::Enable
    } else {
        AutostartAction::Disable
    }
}

/// Whether the application was started by the launch at login: one of its
/// arguments is `--autostart`.
pub fn is_autostart_launch(args: &Vec<String>) -> (autostart: bool)
    ensures
        autostart == exists|i: int| 0 <= i < args@.len() && (#[trigger] args@[i])@ == "--autostart"@,
{
    let mut i: usize = 0;
    while i < args.len()
        invariant
            i <= args@.len(),
            forall|j: int| 0 <= j < i ==> (#[trigger] args@[j])@ != "--autostart"@,
        decreases args@.len() - i,
    {
        if str_eq(args[i].as_str(), "--autostart") {
            return true;
        }
        i += 1;
    }
    false
}

/// Whether the settings window is shown at startup: unless the application
/// was started by the launch at login or is set to start silently.
pub fn shows_settings_at_startup(autostart_launch: bool, general: &GeneralSettings) -> (shown: bool)
    ensures
        shown == (!autostart_launch && !general.silent_startup),
{
    !autostart_launch && !general.silent_startup
}

/// What an entry of the tray menu does.
#[derive(Debug, Clone, Copy, PartialEq, Eq, Structural)]
pub enum TrayMenuAction {
    OpenSettings,
    Quit,
    Nothing,
}

/// Decides what an entry of the tray menu does, by the id of the entry: an
/// id that ends in `open-settings` opens the settings, one that ends in
/// `quit` ends the application.
pub fn tray_menu_action(event_id: &str) -> (action: TrayMenuAction)
    ensures
        action == if has_suffix(event_id@, "open-settings"@) {
            TrayMenuAction::OpenSettings
        } else if has_suffix(event_id@, "quit"@) {
            TrayMenuAction::Quit
        } else {
            TrayMenuAction::Nothing
        },
{
    if ends_with(event_id, "open-settings") {
        TrayMenuAction::OpenSettings
    } else if ends_with(event_id, "quit") {
        TrayMenuAction::Quit
    } else {
        TrayMenuAction::Nothing
    }
}

} // verus!
