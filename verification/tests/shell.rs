use lang_switcher::settings::{default_activation, default_close_to_tray};
use lang_switcher::tray::{close_to_tray, menu_action, TrayAction};
use lang_switcher::trigger::{conversion_steps, SimKey, TriggerStep};

#[test]
fn open_entry_shows_the_window() {
    assert_eq!(menu_action(&String::from("open")), TrayAction::ShowWindow);
}

#[test]
fn quit_entry_quits() {
    assert_eq!(menu_action(&String::from("quit")), TrayAction::Quit);
}

#[test]
fn unknown_entry_does_nothing() {
    assert_eq!(menu_action(&String::from("about")), TrayAction::Nothing);
}

#[test]
fn close_to_tray_true_hides_the_window() {
    assert!(close_to_tray(Some(&String::from("true"))));
}

#[test]
fn close_to_tray_false_allows_the_close() {
    assert!(!close_to_tray(Some(&String::from("false"))));
}

#[test]
fn absent_close_to_tray_setting_allows_the_close() {
    assert!(!close_to_tray(None));
}

#[test]
fn defaults_are_c_and_true() {
    assert_eq!(default_activation(), String::from("C"));
    assert_eq!(default_close_to_tray(), String::from("true"));
}

#[test]
fn conversion_sequence_for_letter_c() {
    let steps = conversion_steps(Some(&String::from("C")));
    assert_eq!(
        steps,
        vec![
            TriggerStep::KeyRelease(SimKey::Alt),
            TriggerStep::KeyRelease(SimKey::MetaLeft),
            TriggerStep::KeyRelease(SimKey::KeyC),
            TriggerStep::SaveClipboard,
            TriggerStep::KeyPress(SimKey::ControlLeft),
            TriggerStep::KeyPress(SimKey::KeyC),
            TriggerStep::KeyRelease(SimKey::ControlLeft),
            TriggerStep::KeyRelease(SimKey::KeyC),
            TriggerStep::ReadSelection,
            TriggerStep::WriteConvertedSelection,
            TriggerStep::KeyPress(SimKey::ControlLeft),
            TriggerStep::KeyPress(SimKey::KeyV),
            TriggerStep::KeyRelease(SimKey::ControlLeft),
            TriggerStep::KeyRelease(SimKey::KeyV),
            TriggerStep::WriteConvertedSaved,
        ]
    );
}

#[test]
fn conversion_sequence_for_letter_s_releases_s() {
    let steps = conversion_steps(Some(&String::from("S")));
    assert_eq!(steps[2], TriggerStep::KeyRelease(SimKey::KeyS));
    assert_eq!(steps.len(), 15);
}

#[test]
fn conversion_sequence_for_letter_l_releases_l() {
    let steps = conversion_steps(Some(&String::from("L")));
    assert_eq!(steps[2], TriggerStep::KeyRelease(SimKey::KeyL));
    assert_eq!(steps.len(), 15);
}

#[test]
fn conversion_sequence_without_activation_releases_no_letter() {
    let steps = conversion_steps(None);
    assert_eq!(steps.len(), 14);
    assert_eq!(steps[2], TriggerStep::SaveClipboard);
}

#[test]
fn conversion_sequence_with_unrecognised_activation_releases_no_letter() {
    let steps = conversion_steps(Some(&String::from("xyz")));
    assert_eq!(steps.len(), 14);
    assert_eq!(steps[2], TriggerStep::SaveClipboard);
}
