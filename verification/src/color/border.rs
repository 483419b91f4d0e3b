//! Border colors.

use vstd::prelude::*;

use crate::color::{Theme, gray, gray_at, is_dark_spec};

verus! {

/// An ordinary border.
pub fn default(theme: Option<Theme>) -> (c: u32)
    ensures
        c == gray_at(6, is_dark_spec(theme)),
{
    gray(6, theme)
}

/// An emphasized border.
pub fn strong(theme: Option<Theme>) -> (c: u32)
    ensures
        c == gray_at(8, is_dark_spec(theme)),
{
    gray(8, theme)
}

} // verus!
