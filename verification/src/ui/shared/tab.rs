//! The shared tab pill, in the theme's colors.

use vstd::prelude::*;

use crate::color::{Theme, is_dark_spec};
use crate::color::interaction::{pressed, pressed_at};
use crate::color::surface::{sunken, sunken_at};
use crate::color::text::{primary, primary_at, secondary, secondary_at};

verus! {

/// A tab as configured.
pub struct Tab<H> {
    pub id: String,
    pub label: String,
    pub selected: bool,
    pub on_click: Option<H>,
}

impl<H> Tab<H> {
    pub fn new(id: String, label: String) -> (t: Self)
        ensures
            t == (Tab::<H> { id, label, selected: false, on_click: None }),
    {
        Tab { id, label, selected: false, on_click: None }
    }

    pub fn selected(self, selected: bool) -> (t: Self)
        ensures
            t == (Tab { selected, ..self }),
    {
        Tab { selected, ..self }
    }

    pub fn on_click(self, handler: H) -> (t: Self)
        ensures
            t == (Tab { on_click: Some(handler), ..self }),
    {
        Tab { on_click: Some(handler), ..self }
    }

    /// Background and text color: the pressed surface and primary text when
    /// selected, else the sunken surface and secondary text.
    pub fn colors(&self, theme: Option<Theme>) -> (c: (u32, u32))
        ensures
            c == if self.selected {
                (pressed_at(is_dark_spec(theme)), primary_at(is_dark_spec(theme)))
            } else {
                (sunken_at(is_dark_spec(theme)), secondary_at(is_dark_spec(theme)))
            },
    {
        if self.selected {
            (pressed(theme), primary(theme))
        } else {
            (sunken(theme), secondary(theme))
        }
    }
}

} // verus!
