//! A tab pill in fixed dark colors.

use vstd::prelude::*;

verus! {

/// A tab as configured.
pub struct Tab<H> {
    pub id: String,
    pub label: String,
    pub selected: bool,
    pub on_click: Option<H>,
}

impl<H> Tab<H> {
    pub fn new(id: String, label: String) -> (t: Self)
        ensures
            t == (Tab::<H> { id, label, selected: false, on_click: None }),
    {
        Tab { id, label, selected: false, on_click: None }
    }

    pub fn selected(self, selected: bool) -> (t: Self)
        ensures
            t == (Tab { selected, ..self }),
    {
        Tab { selected, ..self }
    }

    pub fn on_click(self, handler: H) -> (t: Self)
        ensures
            t == (Tab { on_click: Some(handler), ..self }),
    {
        Tab { on_click: Some(handler), ..self }
    }

    /// Background and text color, as 0xRRGGBB: lighter for the selected tab.
    pub fn colors(&self) -> (c: (u32, u32))
        ensures
            c == if self.selected {
                (0x3d3d3du32, 0xffffffu32)
            } else {
                (0x2a2a2au32, 0xaaaaaau32)
            },
    {
        if self.selected {
            (0x3d3d3d, 0xffffff)
        } else {
            (0x2a2a2a, 0xaaaaaa)
        }
    }
}

} // verus!
