//! Backgrounds of interactive elements.

use vstd::prelude::*;

use crate::color::{Theme, gray, gray_at, is_dark, is_dark_spec};

verus! {

/// Under the pointer.
pub fn hovered(theme: Option<Theme>) -> (c: u32)
    ensures
        c == gray_at(3, is_dark_spec(theme)),
{
    gray(3, theme)
}

/// Pressed or selected.
/// The pressed color: one gray step deeper on dark.
pub open spec fn pressed_at(dark: bool) -> u32 {
    if dark {
        gray_at(5, true)
    } else {
        gray_at(4, false)
    }
}

pub fn pressed(theme: Option<Theme>) -> (c: u32)
    ensures
        c == if is_dark_spec(theme) {
            gray_at(5, is_dark_spec(theme))
        } else {
            gray_at(4, is_dark_spec(theme))
        },
{
    if is_dark(theme) {
        gray(5, theme)
    } else {
        gray(4, theme)
    }
}

} // verus!
