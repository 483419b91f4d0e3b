//! The row menu: a trigger that opens a list of actions, and the panel's
//! presence between frames (it stays on screen while its exit animation
//! runs). Times are milliseconds on a monotonic clock that the app reads.

use vstd::prelude::*;

use crate::toast::{elapsed, elapsed_ms};

verus! {

/// How long the panel's exit animation runs.
pub const PANEL_ANIMATION_MS: u64 = 180;

/// One action of the menu.
#[derive(Debug)]
pub struct MenuItem {
    pub id: String,
    pub label: String,
}

impl MenuItem {
    pub fn new(id: String, label: String) -> (m: Self)
        ensures
            m == (MenuItem { id, label }),
    {
        MenuItem { id, label }
    }
}

/// Whether the panel is on screen, and since when it is closing.
#[derive(Debug, Clone, Copy, PartialEq, Eq, Structural)]
pub struct MenuPresence {
    pub shown: bool,
    pub closing_at: Option<u64>,
}

impl Default for MenuPresence {
    fn default() -> (p: Self)
        ensures
            p == (MenuPresence { shown: false, closing_at: None }),
    {
        MenuPresence { shown: false, closing_at: None }
    }
}

/// The presence after a frame at `now`, and whether the panel is drawn: an
/// open menu is shown; a closed one that was shown stays drawn until its exit
/// animation, timed from the first closed frame, has run, unless the
/// animation is skipped.
pub open spec fn presence_next(p: MenuPresence, open: bool, skip: bool, now: u64) -> (MenuPresence, bool) {
    if open {
        (MenuPresence { shown: true, closing_at: None }, true)
    } else if skip {
        (MenuPresence { shown: false, closing_at: None }, false)
    } else if p.shown {
        let started = match p.closing_at {
            Some(t) => t,
            None => now,
        };
        if elapsed(started, now) < PANEL_ANIMATION_MS {
            (MenuPresence { shown: true, closing_at: Some(started) }, true)
        } else {
            (MenuPresence { shown: false, closing_at: None }, false)
        }
    } else {
        (p, false)
    }
}

impl MenuPresence {
    /// Advances the presence to the frame at `now`; says whether the panel
    /// is drawn.
    pub fn step(&mut self, open: bool, skip_exit_animation: bool, now: u64) -> (visible: bool)
        ensures
            (*final(self), visible) == presence_next(*old(self), open, skip_exit_animation, now),
    {
        if open {
            self.shown = true;
            self.closing_at = None;
            true
        } else if skip_exit_animation {
            self.shown = false;
            self.closing_at = None;
            false
        } else if self.shown {
            let started = match self.closing_at {
                Some(t) => t,
                None => now,
            };
            self.closing_at = Some(started);
            if elapsed_ms(started, now) < PANEL_ANIMATION_MS {
                true
            } else {
                self.shown = false;
                self.closing_at = None;
                false
            }
        } else {
            false
        }
    }
}

/// A closed menu disappears within the animation: once it has been closed
/// for `PANEL_ANIMATION_MS`, a frame no longer draws it, whatever the frames
/// before were.
pub proof fn law_closed_menu_disappears(p: MenuPresence, skip: bool, now: u64)
    requires
        p.closing_at is Some ==> elapsed(p.closing_at->0, now) >= PANEL_ANIMATION_MS,
        !p.shown || p.closing_at is Some,
    ensures
        !presence_next(p, false, skip, now).1,
        !presence_next(p, false, skip, now).0.shown,
{
}

/// The row menu as configured.
pub struct Dropdown<T, D, S> {
    pub id: String,
    pub open: bool,
    pub disabled: bool,
    pub skip_exit_animation: bool,
    pub items: Vec<MenuItem>,
    pub on_toggle: Option<T>,
    pub on_dismiss: Option<D>,
    pub on_select: Option<S>,
}

impl<T, D, S> Dropdown<T, D, S> {
    /// A closed menu without items or handlers.
    pub fn new(id: String) -> (d: Self)
        ensures
            d.id == id,
            !d.open,
            !d.disabled,
            !d.skip_exit_animation,
            d.items@.len() == 0,
            d.on_toggle is None,
            d.on_dismiss is None,
            d.on_select is None,
    {
        Dropdown {
            id,
            open: false,
            disabled: false,
            skip_exit_animation: false,
            items: Vec::new(),
            on_toggle: None,
            on_dismiss: None,
            on_select: None,
        }
    }

    pub fn open(self, open: bool) -> (d: Self)
        ensures
            d == (Dropdown { open, ..self }),
    {
        Dropdown { open, ..self }
    }

    /// While an action is in flight, every item ignores clicks.
    pub fn disabled(self, disabled: bool) -> (d: Self)
        ensures
            d == (Dropdown { disabled, ..self }),
    {
        Dropdown { disabled, ..self }
    }

    /// Drops the panel at once instead of playing the exit animation.
    pub fn skip_exit_animation(self, skip: bool) -> (d: Self)
        ensures
            d == (Dropdown { skip_exit_animation: skip, ..self }),
    {
        Dropdown { skip_exit_animation: skip, ..self }
    }

    pub fn items(self, items: Vec<MenuItem>) -> (d: Self)
        ensures
            d == (Dropdown { items, ..self }),
    {
        Dropdown { items, ..self }
    }

    pub fn on_toggle(self, handler: T) -> (d: Self)
        ensures
            d == (Dropdown { on_toggle: Some(handler), ..self }),
    {
        Dropdown { on_toggle: Some(handler), ..self }
    }

    pub fn on_dismiss(self, handler: D) -> (d: Self)
        ensures
            d == (Dropdown { on_dismiss: Some(handler), ..self }),
    {
        Dropdown { on_dismiss: Some(handler), ..self }
    }

    pub fn on_select(self, handler: S) -> (d: Self)
        ensures
            d == (Dropdown { on_select: Some(handler), ..self }),
    {
        Dropdown { on_select: Some(handler), ..self }
    }

    /// Whether a click on an item reaches the select handler: not while an
    /// action is in flight.
    pub fn items_clickable(&self) -> (b: bool)
        ensures
            b == !self.disabled,
    {
        !self.disabled
    }
}

} // verus!
