//! A multi-select in fixed dark colors: a trigger that opens a list of options, each
//! toggled on click.

use vstd::prelude::*;

verus! {

/// One option and whether it is selected.
#[derive(Debug)]
pub struct SelectOption {
    pub id: String,
    pub label: String,
    pub selected: bool,
}

impl SelectOption {
    pub fn new(id: String, label: String, selected: bool) -> (o: Self)
        ensures
            o == (SelectOption { id, label, selected }),
    {
        SelectOption { id, label, selected }
    }
}

/// The multi-select as configured.
pub struct MultiSelect<T, D, O> {
    pub id: String,
    pub open: bool,
    pub options: Vec<SelectOption>,
    pub on_toggle_open: Option<T>,
    pub on_dismiss: Option<D>,
    pub on_toggle_option: Option<O>,
}

impl<T, D, O> MultiSelect<T, D, O> {
    /// A closed select without options or handlers.
    pub fn new(id: String) -> (m: Self)
        ensures
            m.id == id,
            !m.open,
            m.options@.len() == 0,
            m.on_toggle_open is None,
            m.on_dismiss is None,
            m.on_toggle_option is None,
    {
        MultiSelect { id, open: false, options: Vec::new(), on_toggle_open: None, on_dismiss: None, on_toggle_option: None }
    }

    pub fn open(self, open: bool) -> (m: Self)
        ensures
            m == (MultiSelect { open, ..self }),
    {
        MultiSelect { open, ..self }
    }

    pub fn options(self, options: Vec<SelectOption>) -> (m: Self)
        ensures
            m == (MultiSelect { options, ..self }),
    {
        MultiSelect { options, ..self }
    }

    pub fn on_toggle_open(self, handler: T) -> (m: Self)
        ensures
            m == (MultiSelect { on_toggle_open: Some(handler), ..self }),
    {
        MultiSelect { on_toggle_open: Some(handler), ..self }
    }

    pub fn on_dismiss(self, handler: D) -> (m: Self)
        ensures
            m == (MultiSelect { on_dismiss: Some(handler), ..self }),
    {
        MultiSelect { on_dismiss: Some(handler), ..self }
    }

    pub fn on_toggle_option(self, handler: O) -> (m: Self)
        ensures
            m == (MultiSelect { on_toggle_option: Some(handler), ..self }),
    {
        MultiSelect { on_toggle_option: Some(handler), ..self }
    }

    /// The trigger's background, as 0xRRGGBB: lighter while open.
    pub fn trigger_background(&self) -> (c: u32)
        ensures
            c == if self.open {
                0x3d3d3du32
            } else {
                0x2a2a2au32
            },
    {
        if self.open {
            0x3d3d3d
        } else {
            0x2a2a2a
        }
    }
}

} // verus!
