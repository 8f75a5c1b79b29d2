//! The hotkey chord detector: three pressed-key flags driven by key
//! press/release notifications from the system-wide hook. The chord fires
//! on the press that first makes all three flags true; flags are cleared
//! only by the matching release, so holding the chord does not re-fire.
use vstd::prelude::*;
use crate::settings::setting_view;

verus! {

/// The keys the detector distinguishes; every other key of the keyboard is
/// `Other`.
#[derive(Clone, Copy, PartialEq, Eq, Structural, Debug)]
pub enum HookKey {
    Alt,
    MetaLeft,
    KeyC,
    KeyS,
    KeyL,
    Other,
}

/// One notification from the system-wide hook. Notifications that are not
/// key presses or releases (mouse movement and the like) are `Other`.
#[derive(Clone, Copy, PartialEq, Eq, Structural, Debug)]
pub enum HookEvent {
    KeyPress(HookKey),
    KeyRelease(HookKey),
    Other,
}

/// The shared flag set: one flag per chord key.
#[derive(Clone, Copy, PartialEq, Eq, Structural, Debug)]
pub struct HotkeyState {
    pub alt_pressed: bool,
    pub meta_left_pressed: bool,
    pub alpha_pressed: bool,
}

/// The state before any notification: nothing pressed.
pub open spec fn initial_state() -> HotkeyState {
    HotkeyState { alt_pressed: false, meta_left_pressed: false, alpha_pressed: false }
}

/// A fresh detector state with all flags clear.
pub fn new_state() -> (s: HotkeyState)
    ensures
        s == initial_state(),
{
    HotkeyState { alt_pressed: false, meta_left_pressed: false, alpha_pressed: false }
}

/// Whether the activation-letter setting `val` selects `key`: the setting
/// is compared against the three recognised letters, any other stored
/// value selects nothing.
pub open spec fn activation_matches(val: Seq<char>, key: HookKey) -> bool {
    (val == "C"@ && key == HookKey::KeyC) || (val == "S"@ && key == HookKey::KeyS) || (val == "L"@
        && key == HookKey::KeyL)
}

/// The flag set after a key press: the matching flag is set, the others
/// are untouched; a press that matches nothing (the activation setting
/// being absent included) leaves the state as it was.
pub open spec fn spec_key_press(s: HotkeyState, key: HookKey, act: Option<Seq<char>>) -> HotkeyState {
    if key == HookKey::Alt {
        HotkeyState {
            alt_pressed: true,
            meta_left_pressed: s.meta_left_pressed,
            alpha_pressed: s.alpha_pressed,
        }
    } else if key == HookKey::MetaLeft {
        HotkeyState {
            alt_pressed: s.alt_pressed,
            meta_left_pressed: true,
            alpha_pressed: s.alpha_pressed,
        }
    } else {
        match act {
            Option::Some(v) => if activation_matches(v, key) {
                HotkeyState {
                    alt_pressed: s.alt_pressed,
                    meta_left_pressed: s.meta_left_pressed,
                    alpha_pressed: true,
                }
            } else {
                s
            },
            Option::None => s,
        }
    }
}

/// The flag set after a key release: the matching flag is cleared.
pub open spec fn spec_key_release(s: HotkeyState, key: HookKey, act: Option<Seq<char>>) -> HotkeyState {
    if key == HookKey::Alt {
        HotkeyState {
            alt_pressed: false,
            meta_left_pressed: s.meta_left_pressed,
            alpha_pressed: s.alpha_pressed,
        }
    } else if key == HookKey::MetaLeft {
        HotkeyState {
            alt_pressed: s.alt_pressed,
            meta_left_pressed: false,
            alpha_pressed: s.alpha_pressed,
        }
    } else {
        match act {
            Option::Some(v) => if activation_matches(v, key) {
                HotkeyState {
                    alt_pressed: s.alt_pressed,
                    meta_left_pressed: s.meta_left_pressed,
                    alpha_pressed: false,
                }
            } else {
                s
            },
            Option::None => s,
        }
    }
}

/// All three chord keys down at once.
pub open spec fn chord_complete(s: HotkeyState) -> bool {
    s.alt_pressed && s.meta_left_pressed && s.alpha_pressed
}

/// The state after one notification.
pub open spec fn spec_transition(s: HotkeyState, event: HookEvent, act: Option<Seq<char>>) -> HotkeyState {
    match event {
        HookEvent::KeyPress(k) => spec_key_press(s, k, act),
        HookEvent::KeyRelease(k) => spec_key_release(s, k, act),
        HookEvent::Other => s,
    }
}

/// Whether a notification fires the chord: only a press does, and only
/// when it completes the chord.
pub open spec fn spec_fires(s: HotkeyState, event: HookEvent, act: Option<Seq<char>>) -> bool {
    match event {
        HookEvent::KeyPress(k) => chord_complete(spec_key_press(s, k, act)),
        HookEvent::KeyRelease(k) => false,
        HookEvent::Other => false,
    }
}

/// Whether the activation-letter setting `val` selects `key`.
pub fn is_activation_key(val: &String, key: HookKey) -> (r: bool)
    ensures
        r == activation_matches(val@, key),
{
    let c = String::from_str("C");
    let s = String::from_str("S");
    let l = String::from_str("L");
    (key == HookKey::KeyC && val.eq(&c)) || (key == HookKey::KeyS && val.eq(&s)) || (key
        == HookKey::KeyL && val.eq(&l))
}

/// Feeds one hook notification to the detector. `activation` is the
/// activation-letter setting as read from the store at this very event.
/// Returns whether the chord fired on this notification.
pub fn handle_event(state: &mut HotkeyState, event: HookEvent, activation: Option<&String>) -> (fired:
    bool)
    ensures
        *final(state) == spec_transition(*old(state), event, setting_view(activation)),
        fired == spec_fires(*old(state), event, setting_view(activation)),
{
    match event {
        HookEvent::KeyPress(key) => {
            if key == HookKey::Alt {
                state.alt_pressed = true;
            } else if key == HookKey::MetaLeft {
                state.meta_left_pressed = true;
            } else {
                match activation {
                    Option::Some(val) => {
                        if is_activation_key(val, key) {
                            state.alpha_pressed = true;
                        }
                    },
                    Option::None => {},
                }
            }
            state.alt_pressed && state.meta_left_pressed && state.alpha_pressed
        },
        HookEvent::KeyRelease(key) => {
            if key == HookKey::Alt {
                state.alt_pressed = false;
            } else if key == HookKey::MetaLeft {
                state.meta_left_pressed = false;
            } else {
                match activation {
                    Option::Some(val) => {
                        if is_activation_key(val, key) {
                            state.alpha_pressed = false;
                        }
                    },
                    Option::None => {},
                }
            }
            false
        },
        HookEvent::Other => false,
    }
}

/// Pressing the two modifiers and the activation letter, in any order with
/// nothing released in between, fires the chord exactly once: on the third
/// press, and on neither of the first two.
pub proof fn lemma_chord_fires_once_any_order(
    k1: HookKey,
    k2: HookKey,
    k3: HookKey,
    val: Seq<char>,
    letter: HookKey,
)
    requires
        activation_matches(val, letter),
        k1 != k2,
        k1 != k3,
        k2 != k3,
        k1 == HookKey::Alt || k1 == HookKey::MetaLeft || k1 == letter,
        k2 == HookKey::Alt || k2 == HookKey::MetaLeft || k2 == letter,
        k3 == HookKey::Alt || k3 == HookKey::MetaLeft || k3 == letter,
    ensures
        !spec_fires(initial_state(), HookEvent::KeyPress(k1), Option::Some(val)),
        !spec_fires(
            spec_transition(initial_state(), HookEvent::KeyPress(k1), Option::Some(val)),
            HookEvent::KeyPress(k2),
            Option::Some(val),
        ),
        spec_fires(
            spec_transition(
                spec_transition(initial_state(), HookEvent::KeyPress(k1), Option::Some(val)),
                HookEvent::KeyPress(k2),
                Option::Some(val),
            ),
            HookEvent::KeyPress(k3),
            Option::Some(val),
        ),
{
}

/// With both modifiers held, releasing just the activation letter and
/// pressing it again fires again; the release itself never fires.
pub proof fn lemma_letter_repress_fires_again(s: HotkeyState, letter: HookKey, val: Seq<char>)
    requires
        activation_matches(val, letter),
        s.alt_pressed,
        s.meta_left_pressed,
    ensures
        !spec_fires(s, HookEvent::KeyRelease(letter), Option::Some(val)),
        !chord_complete(spec_transition(s, HookEvent::KeyRelease(letter), Option::Some(val))),
        spec_fires(
            spec_transition(s, HookEvent::KeyRelease(letter), Option::Some(val)),
            HookEvent::KeyPress(letter),
            Option::Some(val),
        ),
{
}

/// Once any one of the three chord keys has been released, a press of an
/// unrelated key does not fire the chord.
pub proof fn lemma_release_disarms(
    s: HotkeyState,
    released: HookKey,
    next: HookKey,
    val: Seq<char>,
    letter: HookKey,
)
    requires
        activation_matches(val, letter),
        released == HookKey::Alt || released == HookKey::MetaLeft || released == letter,
        next != HookKey::Alt,
        next != HookKey::MetaLeft,
        !activation_matches(val, next),
    ensures
        !spec_fires(
            spec_transition(s, HookEvent::KeyRelease(released), Option::Some(val)),
            HookEvent::KeyPress(next),
            Option::Some(val),
        ),
{
}

} // verus!
