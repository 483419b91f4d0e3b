//! Colors of the primary button.

use vstd::prelude::*;

use crate::color::{Theme, gray, gray_at, is_dark_spec};

verus! {

/// Background at rest.
pub fn bg(theme: Option<Theme>) -> (c: u32)
    ensures
        c == gray_at(12, is_dark_spec(theme)),
{
    gray(12, theme)
}

/// Background under the pointer.
pub fn bg_hover(theme: Option<Theme>) -> (c: u32)
    ensures
        c == gray_at(11, is_dark_spec(theme)),
{
    gray(11, theme)
}

/// Background while pressed.
pub fn bg_active(theme: Option<Theme>) -> (c: u32)
    ensures
        c == gray_at(10, is_dark_spec(theme)),
{
    gray(10, theme)
}

/// Label.
pub fn fg(theme: Option<Theme>) -> (c: u32)
    ensures
        c == gray_at(1, is_dark_spec(theme)),
{
    gray(1, theme)
}

} // verus!
