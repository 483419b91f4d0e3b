//! A row menu in fixed dark colors: a round trigger that opens a list of actions; an
//! action in progress shows a spinner and takes no clicks.

use vstd::prelude::*;

verus! {

/// One action of the menu.
#[derive(Debug)]
pub struct ContextMenuItem {
    pub id: String,
    pub label: String,
    pub loading: bool,
}

impl ContextMenuItem {
    pub fn new(id: String, label: String) -> (m: Self)
        ensures
            m == (ContextMenuItem { id, label, loading: false }),
    {
        ContextMenuItem { id, label, loading: false }
    }

    pub fn loading(self, loading: bool) -> (m: Self)
        ensures
            m == (ContextMenuItem { loading, ..self }),
    {
        ContextMenuItem { loading, ..self }
    }

    /// Whether a click on the item reaches the select handler: not while
    /// its action is in progress.
    pub fn clickable(&self) -> (b: bool)
        ensures
            b == !self.loading,
    {
        !self.loading
    }
}

/// The menu as configured.
pub struct ContextMenu<T, D, S> {
    pub id: String,
    pub open: bool,
    pub hover_group: Option<String>,
    pub items: Vec<ContextMenuItem>,
    pub on_toggle_open: Option<T>,
    pub on_dismiss: Option<D>,
    pub on_select: Option<S>,
}

impl<T, D, S> ContextMenu<T, D, S> {
    /// A closed menu without items or handlers.
    pub fn new(id: String) -> (m: Self)
        ensures
            m.id == id,
            !m.open,
            m.hover_group is None,
            m.items@.len() == 0,
            m.on_toggle_open is None,
            m.on_dismiss is None,
            m.on_select is None,
    {
        ContextMenu {
            id,
            open: false,
            hover_group: None,
            items: Vec::new(),
            on_toggle_open: None,
            on_dismiss: None,
            on_select: None,
        }
    }

    pub fn open(self, open: bool) -> (m: Self)
        ensures
            m == (ContextMenu { open, ..self }),
    {
        ContextMenu { open, ..self }
    }

    /// The hover group whose hover reveals the closed trigger.
    pub fn hover_group(self, group: String) -> (m: Self)
        ensures
            m == (ContextMenu { hover_group: Some(group), ..self }),
    {
        ContextMenu { hover_group: Some(group), ..self }
    }

    pub fn items(self, items: Vec<ContextMenuItem>) -> (m: Self)
        ensures
            m == (ContextMenu { items, ..self }),
    {
        ContextMenu { items, ..self }
    }

    pub fn on_toggle_open(self, handler: T) -> (m: Self)
        ensures
            m == (ContextMenu { on_toggle_open: Some(handler), ..self }),
    {
        ContextMenu { on_toggle_open: Some(handler), ..self }
    }

    pub fn on_dismiss(self, handler: D) -> (m: Self)
        ensures
            m == (ContextMenu { on_dismiss: Some(handler), ..self }),
    {
        ContextMenu { on_dismiss: Some(handler), ..self }
    }

    pub fn on_select(self, handler: S) -> (m: Self)
        ensures
            m == (ContextMenu { on_select: Some(handler), ..self }),
    {
        ContextMenu { on_select: Some(handler), ..self }
    }

    /// The trigger's background, as 0xRRGGBB: lighter while open.
    pub fn trigger_background(&self) -> (c: u32)
        ensures
            c == if self.open {
                0x3d3d3du32
            } else {
                0x2a2a2au32
            },
    {
        if self.open {
            0x3d3d3d
        } else {
            0x2a2a2a
        }
    }
}

} // verus!
