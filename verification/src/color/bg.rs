//! Backgrounds that mark state.

use vstd::prelude::*;

use crate::color::{Theme, blue, blue_at, is_dark_spec};

verus! {

/// A selected item.
pub fn selected(theme: Option<Theme>) -> (c: u32)
    ensures
        c == blue_at(9, is_dark_spec(theme)),
{
    blue(9, theme)
}

} // verus!
