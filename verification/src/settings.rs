//! The two process-wide settings: the activation letter and the
//! close-to-tray flag. Both are plain strings kept by the surrounding
//! process; this module fixes their startup values and how an optional
//! stored value is viewed in contracts.
use vstd::prelude::*;

verus! {

/// How a setting read from the process-wide store appears in contracts:
/// the sequence of its characters when the setting is present.
pub open spec fn setting_view(v: Option<&String>) -> Option<Seq<char>> {
    match v {
        Option::Some(s) => Option::Some(s@),
        Option::None => Option::None,
    }
}

/// The activation-letter setting as it stands at startup.
pub fn default_activation() -> (s: String)
    ensures
        s@ == "C"@,
{
    String::from_str("C")
}

/// The close-to-tray setting as it stands at startup.
pub fn default_close_to_tray() -> (s: String)
    ensures
        s@ == "true"@,
{
    String::from_str("true")
}

} // verus!
