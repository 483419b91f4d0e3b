//! Background colors of surfaces.

use vstd::prelude::*;

use crate::color::{Theme, WHITE, gray, gray_at, is_dark, is_dark_spec, white};

verus! {

/// The window background.
pub fn default(theme: Option<Theme>) -> (c: u32)
    ensures
        c == if is_dark_spec(theme) {
            gray_at(1, is_dark_spec(theme))
        } else {
            WHITE
        },
{
    if is_dark(theme) {
        gray(1, theme)
    } else {
        white()
    }
}

/// A recessed surface, such as a track.
/// The sunken surface: one gray step deeper on dark.
pub open spec fn sunken_at(dark: bool) -> u32 {
    if dark {
        gray_at(3, true)
    } else {
        gray_at(2, false)
    }
}

pub fn sunken(theme: Option<Theme>) -> (c: u32)
    ensures
        c == if is_dark_spec(theme) {
            gray_at(3, is_dark_spec(theme))
        } else {
            gray_at(2, is_dark_spec(theme))
        },
{
    if is_dark(theme) {
        gray(3, theme)
    } else {
        gray(2, theme)
    }
}

/// A floating surface, such as a menu.
pub fn overlay(theme: Option<Theme>) -> (c: u32)
    ensures
        c == if is_dark_spec(theme) {
            gray_at(2, is_dark_spec(theme))
        } else {
            WHITE
        },
{
    if is_dark(theme) {
        gray(2, theme)
    } else {
        white()
    }
}

/// A surface in the opposite shade, such as a toast.
pub fn inverse(theme: Option<Theme>) -> (c: u32)
    ensures
        c == gray_at(12, is_dark_spec(theme)),
{
    gray(12, theme)
}

} // verus!
