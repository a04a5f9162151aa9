//! The decision half of the Windows registry theme source. The personalize
//! key's `AppsUseLightTheme` value holds zero when apps use the dark theme
//! and one when they use the light theme; the host program reads and writes
//! the registry and converts through these two functions.

use vstd::prelude::*;

verus! {

/// Decodes the registry value `AppsUseLightTheme`: zero means dark.
pub fn value_marks_dark(value: u32) -> (r: bool)
    ensures
        r == (value == 0),
{
    value == 0
}

/// Encodes the requested theme as the registry value `AppsUseLightTheme`:
/// zero for dark, one for light.
pub fn value_for(dark: bool) -> (v: u32)
    ensures
        v == (if dark {
            0u32
        } else {
            1u32
        }),
{
    if dark {
        0
    } else {
        1
    }
}

} // verus!
