//! The decision half of the Linux desktop theme reader. The host program
//! queries the desktop settings for the GTK theme name and hands the raw
//! reply here; a theme is taken as dark exactly when its name ends with
//! `-dark`.

use vstd::prelude::*;

verus! {

/// The byte value of `-`.
pub const HYPHEN: u8 = 45;

/// The byte value of `d`.
pub const LOWER_D: u8 = 100;

/// The byte value of `a`.
pub const LOWER_A: u8 = 97;

/// The byte value of `r`.
pub const LOWER_R: u8 = 114;

/// The byte value of `k`.
pub const LOWER_K: u8 = 107;

/// Whether a GTK theme reply names a dark variant: its last five bytes are
/// `-dark`.
pub open spec fn spec_reply_marks_dark(reply: Seq<u8>) -> bool {
    &&& reply.len() >= 5
    &&& reply[reply.len() - 5] == HYPHEN
    &&& reply[reply.len() - 4] == LOWER_D
    &&& reply[reply.len() - 3] == LOWER_A
    &&& reply[reply.len() - 2] == LOWER_R
    &&& reply[reply.len() - 1] == LOWER_K
}

/// Decides whether the GTK theme name read from the desktop settings names
/// a dark variant: true exactly when the reply ends with `-dark`.
pub fn reply_marks_dark(reply: &Vec<u8>) -> (r: bool)
    ensures
        r == spec_reply_marks_dark(reply@),
{
    let n = reply.len();
    if n < 5 {
        return false;
    }
    reply[n - 5] == HYPHEN && reply[n - 4] == LOWER_D && reply[n - 3] == LOWER_A && reply[n - 2]
        == LOWER_R && reply[n - 1] == LOWER_K
}

} // verus!
