//! Tray-menu and window-close decisions: which action a tray interaction
//! stands for, and whether a window-close request is vetoed in favour of
//! hiding to the tray.
use vstd::prelude::*;
use crate::settings::setting_view;

verus! {

/// What the shell does in response to a tray interaction.
#[derive(Clone, Copy, PartialEq, Eq, Structural, Debug)]
pub enum TrayAction {
    ShowWindow,
    Quit,
    Nothing,
}

/// The action behind a tray menu entry: the open entry shows the window,
/// the quit entry ends the process, anything else does nothing.
pub open spec fn spec_menu_action(id: Seq<char>) -> TrayAction {
    if id == "open"@ {
        TrayAction::ShowWindow
    } else if id == "quit"@ {
        TrayAction::Quit
    } else {
        TrayAction::Nothing
    }
}

/// Maps a clicked tray menu entry to its action.
pub fn menu_action(id: &String) -> (action: TrayAction)
    ensures
        action == spec_menu_action(id@),
{
    let open_id = String::from_str("open");
    let quit_id = String::from_str("quit");
    if id.eq(&open_id) {
        TrayAction::ShowWindow
    } else if id.eq(&quit_id) {
        TrayAction::Quit
    } else {
        TrayAction::Nothing
    }
}

/// The close-to-tray rule: the close is vetoed and the window hidden
/// exactly when the stored setting is the literal string `true`; any other
/// value, or an absent setting, lets the close proceed.
pub open spec fn spec_close_to_tray(setting: Option<Seq<char>>) -> bool {
    match setting {
        Option::Some(v) => v == "true"@,
        Option::None => false,
    }
}

/// Decides a window-close request from the close-to-tray setting as read
/// at that moment: true means hide the window and veto the close, false
/// means allow it.
pub fn close_to_tray(setting: Option<&String>) -> (hide: bool)
    ensures
        hide == spec_close_to_tray(setting_view(setting)),
{
    match setting {
        Option::Some(v) => {
            let t = String::from_str("true");
            v.eq(&t)
        },
        Option::None => false,
    }
}

} // verus!
