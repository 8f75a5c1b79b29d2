//! Keyboard-layout rescue library: transliterates text that was typed in the
//! wrong layout between Latin (QWERTY) and Cyrillic, detects the activation
//! hotkey chord from key press/release notifications, and decides the
//! surrounding tray, window-close and conversion-sequence behaviour.
pub mod hotkey;
pub mod settings;
pub mod translit;
pub mod tray;
pub mod trigger;
