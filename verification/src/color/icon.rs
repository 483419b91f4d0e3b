//! Icon colors.

use vstd::prelude::*;

use crate::color::{Theme, WHITE, gray, gray_at, is_dark_spec, white};

verus! {

/// An ordinary icon.
pub fn default(theme: Option<Theme>) -> (c: u32)
    ensures
        c == gray_at(12, is_dark_spec(theme)),
{
    gray(12, theme)
}

/// A de-emphasized icon.
pub fn subtle(theme: Option<Theme>) -> (c: u32)
    ensures
        c == gray_at(9, is_dark_spec(theme)),
{
    gray(9, theme)
}

/// An icon on an inverse surface.
pub fn inverse(theme: Option<Theme>) -> (c: u32)
    ensures
        c == gray_at(1, is_dark_spec(theme)),
{
    gray(1, theme)
}

/// An icon on a solid colored background.
pub fn on_solid(theme: Option<Theme>) -> (c: u32)
    ensures
        c == WHITE,
{
    white()
}

} // verus!
