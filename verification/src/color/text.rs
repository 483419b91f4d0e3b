//! Text colors.

use vstd::prelude::*;

use crate::color::{Theme, gray, gray_at, is_dark_spec, red, red_at};

verus! {

/// Body text.
/// Primary text.
pub open spec fn primary_at(dark: bool) -> u32 {
    gray_at(12, dark)
}

/// Secondary text.
pub open spec fn secondary_at(dark: bool) -> u32 {
    gray_at(10, dark)
}

pub fn primary(theme: Option<Theme>) -> (c: u32)
    ensures
        c == gray_at(12, is_dark_spec(theme)),
{
    gray(12, theme)
}

/// Secondary text.
pub fn secondary(theme: Option<Theme>) -> (c: u32)
    ensures
        c == gray_at(10, is_dark_spec(theme)),
{
    gray(10, theme)
}

/// Text on an inverse surface.
pub fn inverse(theme: Option<Theme>) -> (c: u32)
    ensures
        c == gray_at(1, is_dark_spec(theme)),
{
    gray(1, theme)
}

/// Text of a destructive action.
pub fn danger(theme: Option<Theme>) -> (c: u32)
    ensures
        c == red_at(9, is_dark_spec(theme)),
{
    red(9, theme)
}

} // verus!
