//! A button in fixed dark colors: primary (light on dark) or secondary, with a label, an
//! optional SVG icon and a click handler. Drawing is done by the app; the
//! colors it uses are decided here.

use vstd::prelude::*;

use crate::color::{GRAY_DARK, step_index};

verus! {

/// A button as configured.
pub struct Button<H> {
    pub id: &'static str,
    pub primary: bool,
    pub label: &'static str,
    pub icon: Option<&'static [u8]>,
    pub full: bool,
    pub on_click: Option<H>,
}

/// The colors of a button, as 0xRRGGBB.
#[derive(Debug, Clone, Copy, PartialEq, Eq, Structural)]
pub struct ButtonColors {
    pub text: u32,
    pub background: Option<u32>,
    pub hover_background: u32,
    pub active_background: u32,
}

/// Step `step` of the dark gray scale, clamped to the scale.
pub open spec fn gray_step(step: usize) -> u32 {
    GRAY_DARK@[step_index(step)]
}

fn gray(step: usize) -> (c: u32)
    ensures
        c == gray_step(step),
{
    let index: usize = if step <= 1 {
        0
    } else if step >= 12 {
        11
    } else {
        step - 1
    };
    GRAY_DARK[index]
}

impl<H> Button<H> {
    pub fn primary(id: &'static str) -> (b: Self)
        ensures
            b == Self::new_spec(id, true),
    {
        Self::new(id, true)
    }

    pub fn secondary(id: &'static str) -> (b: Self)
        ensures
            b == Self::new_spec(id, false),
    {
        Self::new(id, false)
    }

    /// A button without label, icon or handler, not spanning the width.
    pub open spec fn new_spec(id: &'static str, primary: bool) -> Self {
        Button { id, primary, label: "", icon: None, full: false, on_click: None }
    }

    fn new(id: &'static str, primary: bool) -> (b: Self)
        ensures
            b == Self::new_spec(id, primary),
    {
        Button { id, primary, label: "", icon: None, full: false, on_click: None }
    }

    pub fn label(self, label: &'static str) -> (b: Self)
        ensures
            b == (Button { label, ..self }),
    {
        Button { label, ..self }
    }

    pub fn icon(self, icon: &'static [u8]) -> (b: Self)
        ensures
            b == (Button { icon: Some(icon), ..self }),
    {
        Button { icon: Some(icon), ..self }
    }

    /// Spans the full width.
    pub fn full(self) -> (b: Self)
        ensures
            b == (Button { full: true, ..self }),
    {
        Button { full: true, ..self }
    }

    pub fn on_click(self, handler: H) -> (b: Self)
        ensures
            b == (Button { on_click: Some(handler), ..self }),
    {
        Button { on_click: Some(handler), ..self }
    }

    /// The colors: a primary button is near-white text on the lightest gray
    /// of the dark scale; a secondary one is gray text without a background.
    pub fn colors(&self) -> (c: ButtonColors)
        ensures
            c == (if self.primary {
                ButtonColors {
                    text: gray_step(1),
                    background: Some(gray_step(12)),
                    hover_background: gray_step(11),
                    active_background: gray_step(10),
                }
            } else {
                ButtonColors {
                    text: gray_step(9),
                    background: None,
                    hover_background: gray_step(3),
                    active_background: gray_step(5),
                }
            }),
    {
        if self.primary {
            ButtonColors {
                text: gray(1),
                background: Some(gray(12)),
                hover_background: gray(11),
                active_background: gray(10),
            }
        } else {
            ButtonColors { text: gray(9), background: None, hover_background: gray(3), active_background: gray(5) }
        }
    }
}

} // verus!
