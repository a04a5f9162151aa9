//! The decision half of the macOS system-appearance reader. The host
//! program asks the defaults database for `AppleInterfaceStyle` and hands
//! the raw reply here; the appearance is dark exactly when the reply starts
//! with `Dark`.

use vstd::prelude::*;

verus! {

/// The byte value of `D`.
pub const UPPER_D: u8 = 68;

/// The byte value of `a`.
pub const LOWER_A: u8 = 97;

/// The byte value of `r`.
pub const LOWER_R: u8 = 114;

/// The byte value of `k`.
pub const LOWER_K: u8 = 107;

/// Whether a system-appearance reply reports the dark style: its first four
/// bytes are `Dark`.
pub open spec fn spec_reply_marks_dark(reply: Seq<u8>) -> bool {
    &&& reply.len() >= 4
    &&& reply[0] == UPPER_D
    &&& reply[1] == LOWER_A
    &&& reply[2] == LOWER_R
    &&& reply[3] == LOWER_K
}

/// Decides whether the system-appearance reply reports the dark style: true
/// exactly when the reply starts with `Dark`.
pub fn reply_marks_dark(reply: &Vec<u8>) -> (r: bool)
    ensures
        r == spec_reply_marks_dark(reply@),
{
    if reply.len() < 4 {
        return false;
    }
    reply[0] == UPPER_D && reply[1] == LOWER_A && reply[2] == LOWER_R && reply[3] == LOWER_K
}

} // verus!
