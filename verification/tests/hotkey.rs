use lang_switcher::hotkey::{handle_event, new_state, HookEvent, HookKey};

#[test]
fn chord_fires_on_third_press() {
    let act = String::from("C");
    let mut state = new_state();
    assert!(!handle_event(&mut state, HookEvent::KeyPress(HookKey::Alt), Some(&act)));
    assert!(!handle_event(&mut state, HookEvent::KeyPress(HookKey::MetaLeft), Some(&act)));
    assert!(handle_event(&mut state, HookEvent::KeyPress(HookKey::KeyC), Some(&act)));
}

#[test]
fn chord_fires_in_another_order() {
    let act = String::from("C");
    let mut state = new_state();
    assert!(!handle_event(&mut state, HookEvent::KeyPress(HookKey::KeyC), Some(&act)));
    assert!(!handle_event(&mut state, HookEvent::KeyPress(HookKey::Alt), Some(&act)));
    assert!(handle_event(&mut state, HookEvent::KeyPress(HookKey::MetaLeft), Some(&act)));
}

#[test]
fn repressing_the_letter_fires_again() {
    let act = String::from("C");
    let mut state = new_state();
    handle_event(&mut state, HookEvent::KeyPress(HookKey::Alt), Some(&act));
    handle_event(&mut state, HookEvent::KeyPress(HookKey::MetaLeft), Some(&act));
    assert!(handle_event(&mut state, HookEvent::KeyPress(HookKey::KeyC), Some(&act)));
    assert!(!handle_event(&mut state, HookEvent::KeyRelease(HookKey::KeyC), Some(&act)));
    assert!(handle_event(&mut state, HookEvent::KeyPress(HookKey::KeyC), Some(&act)));
}

#[test]
fn releasing_a_modifier_disarms_the_chord() {
    let act = String::from("C");
    let mut state = new_state();
    handle_event(&mut state, HookEvent::KeyPress(HookKey::Alt), Some(&act));
    handle_event(&mut state, HookEvent::KeyPress(HookKey::MetaLeft), Some(&act));
    assert!(handle_event(&mut state, HookEvent::KeyPress(HookKey::KeyC), Some(&act)));
    assert!(!handle_event(&mut state, HookEvent::KeyRelease(HookKey::Alt), Some(&act)));
    assert!(!handle_event(&mut state, HookEvent::KeyPress(HookKey::KeyS), Some(&act)));
}

#[test]
fn wrong_letter_does_not_complete_the_chord() {
    let act = String::from("S");
    let mut state = new_state();
    handle_event(&mut state, HookEvent::KeyPress(HookKey::Alt), Some(&act));
    handle_event(&mut state, HookEvent::KeyPress(HookKey::MetaLeft), Some(&act));
    assert!(!handle_event(&mut state, HookEvent::KeyPress(HookKey::KeyC), Some(&act)));
    assert!(handle_event(&mut state, HookEvent::KeyPress(HookKey::KeyS), Some(&act)));
}

#[test]
fn absent_activation_setting_disables_the_letter() {
    let mut state = new_state();
    handle_event(&mut state, HookEvent::KeyPress(HookKey::Alt), None);
    handle_event(&mut state, HookEvent::KeyPress(HookKey::MetaLeft), None);
    assert!(!handle_event(&mut state, HookEvent::KeyPress(HookKey::KeyC), None));
    assert!(!handle_event(&mut state, HookEvent::KeyPress(HookKey::KeyL), None));
}

#[test]
fn unrecognised_activation_value_selects_nothing() {
    let act = String::from("Q");
    let mut state = new_state();
    handle_event(&mut state, HookEvent::KeyPress(HookKey::Alt), Some(&act));
    handle_event(&mut state, HookEvent::KeyPress(HookKey::MetaLeft), Some(&act));
    assert!(!handle_event(&mut state, HookEvent::KeyPress(HookKey::KeyC), Some(&act)));
}

#[test]
fn setting_change_takes_effect_on_the_next_event() {
    let c = String::from("C");
    let l = String::from("L");
    let mut state = new_state();
    handle_event(&mut state, HookEvent::KeyPress(HookKey::Alt), Some(&c));
    handle_event(&mut state, HookEvent::KeyPress(HookKey::MetaLeft), Some(&c));
    assert!(!handle_event(&mut state, HookEvent::KeyPress(HookKey::KeyL), Some(&c)));
    assert!(handle_event(&mut state, HookEvent::KeyPress(HookKey::KeyL), Some(&l)));
}

#[test]
fn non_key_notifications_are_ignored() {
    let act = String::from("C");
    let mut state = new_state();
    handle_event(&mut state, HookEvent::KeyPress(HookKey::Alt), Some(&act));
    handle_event(&mut state, HookEvent::KeyPress(HookKey::MetaLeft), Some(&act));
    assert!(!handle_event(&mut state, HookEvent::Other, Some(&act)));
    let before = state;
    assert!(!handle_event(&mut state, HookEvent::Other, Some(&act)));
    assert_eq!(state, before);
}
