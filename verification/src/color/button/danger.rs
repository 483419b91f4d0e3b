//! Colors of the destructive button.

use vstd::prelude::*;

use crate::color::{Theme, WHITE, is_dark_spec, red, red_at, white};

verus! {

/// Background at rest.
pub fn bg(theme: Option<Theme>) -> (c: u32)
    ensures
        c == red_at(9, is_dark_spec(theme)),
{
    red(9, theme)
}

/// Background under the pointer.
pub fn bg_hover(theme: Option<Theme>) -> (c: u32)
    ensures
        c == red_at(10, is_dark_spec(theme)),
{
    red(10, theme)
}

/// Background while pressed.
pub fn bg_active(theme: Option<Theme>) -> (c: u32)
    ensures
        c == red_at(11, is_dark_spec(theme)),
{
    red(11, theme)
}

/// Label: white in both variants.
pub fn fg() -> (c: u32)
    ensures
        c == WHITE,
{
    white()
}

} // verus!
