//! The corner preference a window frame can be given.
//!
//! The compositor takes the preference as a 32-bit code together with the
//! byte size of that code. This shim only ever requests rounded corners;
//! the other preferences exist so that the request can be stated against
//! the full range the platform defines.

use vstd::prelude::*;

verus! {

/// Byte size of the 32-bit preference code handed to the compositor.
pub const CORNER_PREFERENCE_SIZE_BYTES: u32 = 4;

/// A window-frame corner preference of the platform compositor.
#[derive(Debug, Clone, Copy, PartialEq, Eq)]
pub enum CornerPreference {
    /// Let the system decide.
    SystemDefault,
    /// Never round.
    Square,
    /// Round the corners.
    Rounded,
    /// Round the corners with a small radius.
    SmallRounded,
}

/// The platform's code for a corner preference.
pub open spec fn corner_code_spec(preference: CornerPreference) -> int {
    match preference {
        CornerPreference::SystemDefault => 0,
        CornerPreference::Square => 1,
        CornerPreference::Rounded => 2,
        CornerPreference::SmallRounded => 3,
    }
}

/// The code handed to the compositor for a corner preference.
pub fn corner_code(preference: CornerPreference) -> (code: u32)
    ensures
        code as int == corner_code_spec(preference),
{
    match preference {
        CornerPreference::SystemDefault => 0,
        CornerPreference::Square => 1,
        CornerPreference::Rounded => 2,
        CornerPreference::SmallRounded => 3,
    }
}

} // verus!
