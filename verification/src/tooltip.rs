//! When a tooltip is on screen: it appears once the pointer has rested on
//! its host for the show delay, and stays while its exit animation runs
//! after the pointer leaves. Times are milliseconds on a monotonic clock
//! that the app reads.

use vstd::prelude::*;

use crate::dropdown::PANEL_ANIMATION_MS;
use crate::toast::{elapsed, elapsed_ms};

verus! {

/// How long the pointer rests on the host before the tooltip appears.
pub const SHOW_DELAY_MS: u64 = 200;

/// How long the tooltip's exit animation runs.
pub const EXIT_ANIMATION_MS: u64 = PANEL_ANIMATION_MS;

/// Whether the tooltip is shown, since when the pointer rests on its host
/// while it is not shown yet, and since when it is closing.
#[derive(Debug, Clone, Copy, PartialEq, Eq, Structural)]
pub struct TooltipPresence {
    pub shown: bool,
    pub opening_at: Option<u64>,
    pub closing_at: Option<u64>,
}

/// What a frame does with the tooltip.
#[derive(Debug, Clone, Copy, PartialEq, Eq, Structural)]
pub struct TooltipFrame {
    /// The bubble is drawn in this frame.
    pub visible: bool,
    /// The exit animation finished in this frame.
    pub closed: bool,
}

impl Default for TooltipPresence {
    fn default() -> (p: Self)
        ensures
            p == (TooltipPresence { shown: false, opening_at: None, closing_at: None }),
    {
        TooltipPresence { shown: false, opening_at: None, closing_at: None }
    }
}

/// The presence after a frame at `now` with the pointer on the host
/// (`hovered`) or not, and what the frame does.
pub open spec fn tooltip_next(p: TooltipPresence, hovered: bool, show_delay: u64, now: u64) -> (
    TooltipPresence,
    TooltipFrame,
) {
    if hovered {
        if p.shown {
            (
                TooltipPresence { shown: true, opening_at: None, closing_at: None },
                TooltipFrame { visible: true, closed: false },
            )
        } else {
            let started = match p.opening_at {
                Some(t) => t,
                None => now,
            };
            if elapsed(started, now) >= show_delay {
                (
                    TooltipPresence { shown: true, opening_at: None, closing_at: None },
                    TooltipFrame { visible: true, closed: false },
                )
            } else {
                (
                    TooltipPresence { shown: false, opening_at: Some(started), closing_at: None },
                    TooltipFrame { visible: false, closed: false },
                )
            }
        }
    } else if p.shown {
        let started = match p.closing_at {
            Some(t) => t,
            None => now,
        };
        if elapsed(started, now) < EXIT_ANIMATION_MS {
            (
                TooltipPresence { shown: true, opening_at: None, closing_at: Some(started) },
                TooltipFrame { visible: true, closed: false },
            )
        } else {
            (
                TooltipPresence { shown: false, opening_at: None, closing_at: None },
                TooltipFrame { visible: false, closed: true },
            )
        }
    } else {
        (
            TooltipPresence { shown: false, opening_at: None, closing_at: p.closing_at },
            TooltipFrame { visible: false, closed: false },
        )
    }
}

impl TooltipPresence {
    /// Advances the presence to the frame at `now`.
    pub fn step(&mut self, hovered: bool, show_delay: u64, now: u64) -> (f: TooltipFrame)
        ensures
            (*final(self), f) == tooltip_next(*old(self), hovered, show_delay, now),
    {
        if hovered {
            self.closing_at = None;
            if self.shown {
                self.opening_at = None;
                TooltipFrame { visible: true, closed: false }
            } else {
                let started = match self.opening_at {
                    Some(t) => t,
                    None => now,
                };
                if elapsed_ms(started, now) >= show_delay {
                    self.shown = true;
                    self.opening_at = None;
                    TooltipFrame { visible: true, closed: false }
                } else {
                    self.opening_at = Some(started);
                    TooltipFrame { visible: false, closed: false }
                }
            }
        } else {
            self.opening_at = None;
            if self.shown {
                let started = match self.closing_at {
                    Some(t) => t,
                    None => now,
                };
                if elapsed_ms(started, now) < EXIT_ANIMATION_MS {
                    self.closing_at = Some(started);
                    TooltipFrame { visible: true, closed: false }
                } else {
                    self.shown = false;
                    self.closing_at = None;
                    TooltipFrame { visible: false, closed: true }
                }
            } else {
                TooltipFrame { visible: false, closed: false }
            }
        }
    }

    /// Whether a timer runs (the show delay or the exit animation), so that
    /// another frame is wanted.
    pub fn animating(&self) -> (b: bool)
        ensures
            b == (self.opening_at is Some || self.closing_at is Some),
    {
        self.opening_at.is_some() || self.closing_at.is_some()
    }
}

/// A tooltip that is not shown does not appear before the pointer has
/// rested on its host for the show delay, counted from the first hovered
/// frame.
pub proof fn law_no_tooltip_before_the_delay(p: TooltipPresence, show_delay: u64, now: u64)
    requires
        !p.shown,
    ensures
        tooltip_next(p, true, show_delay, now).1.visible <==> elapsed(
            match p.opening_at {
                Some(t) => t,
                None => now,
            },
            now,
        ) >= show_delay,
{
}

/// Once the pointer has left and the exit animation has run, the tooltip is
/// gone, and the frame that takes it away is the one that reports it closed.
pub proof fn law_left_tooltip_disappears(p: TooltipPresence, show_delay: u64, now: u64)
    requires
        p.shown,
        p.closing_at is Some,
        elapsed(p.closing_at->0, now) >= EXIT_ANIMATION_MS,
    ensures
        !tooltip_next(p, false, show_delay, now).1.visible,
        tooltip_next(p, false, show_delay, now).1.closed,
        !tooltip_next(p, false, show_delay, now).0.shown,
{
}

/// A closing is reported once: a frame reports the tooltip closed only when
/// it was shown before and is not after.
pub proof fn law_closed_once(p: TooltipPresence, hovered: bool, show_delay: u64, now: u64)
    ensures
        tooltip_next(p, hovered, show_delay, now).1.closed ==> p.shown && !tooltip_next(
            p,
            hovered,
            show_delay,
            now,
        ).0.shown,
{
}

} // verus!
