//! The conversion trigger: once the chord has fired, a fixed sequence of
//! synthetic key events and clipboard operations applies the conversion to
//! the current selection. This module plans that sequence; the surrounding
//! process performs each step against the OS with a short delay between
//! key events.
use vstd::prelude::*;
use crate::settings::setting_view;

verus! {

/// A key the conversion sequence synthesizes.
#[derive(Clone, Copy, PartialEq, Eq, Structural, Debug)]
pub enum SimKey {
    Alt,
    MetaLeft,
    ControlLeft,
    KeyC,
    KeyS,
    KeyL,
    KeyV,
}

/// One step of the conversion sequence.
#[derive(Clone, Copy, PartialEq, Eq, Structural, Debug)]
pub enum TriggerStep {
    /// Synthesize a press of the key.
    KeyPress(SimKey),
    /// Synthesize a release of the key.
    KeyRelease(SimKey),
    /// Read the clipboard and remember it as the saved value.
    SaveClipboard,
    /// Read the clipboard as the freshly copied selection.
    ReadSelection,
    /// Write the converted selection to the clipboard.
    WriteConvertedSelection,
    /// Write the converted saved value to the clipboard (deliberately not
    /// the saved value itself).
    WriteConvertedSaved,
}

/// The chord keys released first, so that the held chord does not bleed
/// into the synthetic copy and paste: both modifiers, then the configured
/// activation letter. An absent or unrecognised activation setting
/// releases no letter.
pub open spec fn release_chord_steps(act: Option<Seq<char>>) -> Seq<TriggerStep> {
    seq![TriggerStep::KeyRelease(SimKey::Alt), TriggerStep::KeyRelease(SimKey::MetaLeft)] + match act {
        Option::Some(v) => if v == "C"@ {
            seq![TriggerStep::KeyRelease(SimKey::KeyC)]
        } else if v == "S"@ {
            seq![TriggerStep::KeyRelease(SimKey::KeyS)]
        } else if v == "L"@ {
            seq![TriggerStep::KeyRelease(SimKey::KeyL)]
        } else {
            Seq::<TriggerStep>::empty()
        },
        Option::None => Seq::<TriggerStep>::empty(),
    }
}

/// The synthetic copy chord.
pub open spec fn copy_chord_steps() -> Seq<TriggerStep> {
    seq![
        TriggerStep::KeyPress(SimKey::ControlLeft),
        TriggerStep::KeyPress(SimKey::KeyC),
        TriggerStep::KeyRelease(SimKey::ControlLeft),
        TriggerStep::KeyRelease(SimKey::KeyC),
    ]
}

/// The synthetic paste chord.
pub open spec fn paste_chord_steps() -> Seq<TriggerStep> {
    seq![
        TriggerStep::KeyPress(SimKey::ControlLeft),
        TriggerStep::KeyPress(SimKey::KeyV),
        TriggerStep::KeyRelease(SimKey::ControlLeft),
        TriggerStep::KeyRelease(SimKey::KeyV),
    ]
}

/// The whole conversion sequence: release the chord, save the clipboard,
/// copy the selection, convert and write it back, paste it, and finally
/// write the converted saved value back to the clipboard.
pub open spec fn spec_conversion_steps(act: Option<Seq<char>>) -> Seq<TriggerStep> {
    release_chord_steps(act) + seq![TriggerStep::SaveClipboard] + copy_chord_steps() + seq![
        TriggerStep::ReadSelection,
        TriggerStep::WriteConvertedSelection,
    ] + paste_chord_steps() + seq![TriggerStep::WriteConvertedSaved]
}

/// Plans the conversion sequence for the activation-letter setting as read
/// when the chord fired.
pub fn conversion_steps(activation: Option<&String>) -> (steps: Vec<TriggerStep>)
    ensures
        steps@ == spec_conversion_steps(setting_view(activation)),
{
    let mut steps: Vec<TriggerStep> = Vec::new();
    steps.push(TriggerStep::KeyRelease(SimKey::Alt));
    steps.push(TriggerStep::KeyRelease(SimKey::MetaLeft));
    match activation {
        Option::Some(v) => {
            let c = String::from_str("C");
            let s = String::from_str("S");
            let l = String::from_str("L");
            if v.eq(&c) {
                steps.push(TriggerStep::KeyRelease(SimKey::KeyC));
            } else if v.eq(&s) {
                steps.push(TriggerStep::KeyRelease(SimKey::KeyS));
            } else if v.eq(&l) {
                steps.push(TriggerStep::KeyRelease(SimKey::KeyL));
            }
        },
        Option::None => {},
    }
    steps.push(TriggerStep::SaveClipboard);
    steps.push(TriggerStep::KeyPress(SimKey::ControlLeft));
    steps.push(TriggerStep::KeyPress(SimKey::KeyC));
    steps.push(TriggerStep::KeyRelease(SimKey::ControlLeft));
    steps.push(TriggerStep::KeyRelease(SimKey::KeyC));
    steps.push(TriggerStep::ReadSelection);
    steps.push(TriggerStep::WriteConvertedSelection);
    steps.push(TriggerStep::KeyPress(SimKey::ControlLeft));
    steps.push(TriggerStep::KeyPress(SimKey::KeyV));
    steps.push(TriggerStep::KeyRelease(SimKey::ControlLeft));
    steps.push(TriggerStep::KeyRelease(SimKey::KeyV));
    steps.push(TriggerStep::WriteConvertedSaved);
    proof {
        assert(steps@ =~= spec_conversion_steps(setting_view(activation)));
    }
    steps
}

} // verus!
