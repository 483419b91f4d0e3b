//! Short messages at the bottom of the window. One toast at a time per key:
//! a repeat jumps and restarts the timer instead of stacking another copy.
//! Times are milliseconds on a monotonic clock that the app reads.

use vstd::prelude::*;

verus! {

/// How long a toast shows before it starts to close.
pub const SHOW_FOR_MS: u64 = 2500;

/// How long the closing animation runs.
pub const ANIMATION_MS: u64 = 180;

/// How long the jump of a repeated toast runs.
pub const JUMP_MS: u64 = 240;

/// Time from `since` to `now`, 0 when `now` is earlier.
pub open spec fn elapsed(since: u64, now: u64) -> u64 {
    if now >= since {
        (now - since) as u64
    } else {
        0
    }
}

pub fn elapsed_ms(since: u64, now: u64) -> (d: u64)
    ensures
        d == elapsed(since, now),
{
    if now >= since {
        now - since
    } else {
        0
    }
}

/// One toast.
pub struct Toast {
    pub key: String,
    pub message: String,
    pub generation: u64,
    pub created_at: u64,
    pub closing_since: Option<u64>,
    pub jump_at: Option<u64>,
}

/// The value of a toast, strings as characters.
pub struct ToastView {
    pub key: Seq<char>,
    pub message: Seq<char>,
    pub generation: u64,
    pub created_at: u64,
    pub closing_since: Option<u64>,
    pub jump_at: Option<u64>,
}

impl View for Toast {
    type V = ToastView;

    open spec fn view(&self) -> ToastView {
        ToastView {
            key: self.key@,
            message: self.message@,
            generation: self.generation,
            created_at: self.created_at,
            closing_since: self.closing_since,
            jump_at: self.jump_at,
        }
    }
}

pub open spec fn toast_views(toasts: Seq<Toast>) -> Seq<ToastView> {
    toasts.map_values(|t: Toast| t@)
}

/// No two toasts share a key.
pub open spec fn keys_unique(toasts: Seq<ToastView>) -> bool {
    forall|i: int, j: int| 0 <= i < j < toasts.len() ==> #[trigger] toasts[i].key != #[trigger] toasts[j].key
}

/// The index of the toast with key `key`, if any.
pub open spec fn has_key(toasts: Seq<ToastView>, key: Seq<char>, i: int) -> bool {
    0 <= i < toasts.len() && toasts[i].key == key
}

/// What `tick` does to one toast: it starts closing once shown long enough,
/// and its jump ends once the jump has run.
pub open spec fn ticked(t: ToastView, now: u64) -> ToastView {
    ToastView {
        closing_since: if t.closing_since is None && elapsed(t.created_at, now) >= SHOW_FOR_MS {
            Some(now)
        } else {
            t.closing_since
        },
        jump_at: match t.jump_at {
            Some(j) => if elapsed(j, now) >= JUMP_MS {
                None
            } else {
                Some(j)
            },
            None => None,
        },
        ..t
    }
}

/// A toast stays while open or while its closing animation runs.
pub open spec fn stays(t: ToastView, now: u64) -> bool {
    match t.closing_since {
        None => true,
        Some(since) => elapsed(since, now) < ANIMATION_MS,
    }
}

/// The toasts after a tick: each one ticked, those that finished closing
/// dropped, the others in order.
pub open spec fn after_tick(toasts: Seq<ToastView>, now: u64) -> Seq<ToastView>
    decreases toasts.len(),
{
    if toasts.len() == 0 {
        Seq::empty()
    } else {
        let rest = after_tick(toasts.drop_last(), now);
        let t = ticked(toasts.last(), now);
        if stays(t, now) {
            rest.push(t)
        } else {
            rest
        }
    }
}

/// A toast with key `key` is shown.
pub open spec fn shown(toasts: Seq<ToastView>, key: Seq<char>) -> bool {
    exists|i: int| has_key(toasts, key, i)
}

/// The toasts after `message` is pushed under `key` at `now`: the toast with
/// that key takes the message and a new generation, restarts its timer,
/// stops closing and jumps; without one, a new toast of the next generation
/// is added last.
pub open spec fn pushed(
    toasts: Seq<ToastView>,
    next_generation: u64,
    key: Seq<char>,
    message: Seq<char>,
    now: u64,
) -> Seq<ToastView> {
    if shown(toasts, key) {
        let i = choose|i: int| has_key(toasts, key, i);
        toasts.update(
            i,
            ToastView {
                key,
                message,
                generation: toasts[i].generation.wrapping_add(1),
                created_at: now,
                closing_since: None,
                jump_at: Some(now),
            },
        )
    } else {
        toasts.push(
            ToastView {
                key,
                message,
                generation: next_generation.wrapping_add(1),
                created_at: now,
                closing_since: None,
                jump_at: None,
            },
        )
    }
}

/// The toasts of the window.
pub struct Toaster {
    toasts: Vec<Toast>,
    next_generation: u64,
    ticking: bool,
}

impl Default for Toaster {
    fn default() -> (t: Self)
        ensures
            t@.len() == 0,
            t.next_generation() == 0,
            !t.ticking(),
    {
        Toaster { toasts: Vec::new(), next_generation: 0, ticking: false }
    }
}

impl Toaster {
    /// The toasts shown, oldest first.
    pub closed spec fn view(&self) -> Seq<ToastView> {
        toast_views(self.toasts@)
    }

    pub closed spec fn next_generation(&self) -> u64 {
        self.next_generation
    }

    pub closed spec fn ticking(&self) -> bool {
        self.ticking
    }

    /// The toaster's invariant: one toast per key.
    pub open spec fn wf(&self) -> bool {
        keys_unique(self@)
    }

    /// An empty toaster.
    pub fn new() -> (t: Self)
        ensures
            t@.len() == 0,
            t.wf(),
            !t.ticking(),
            t.next_generation() == 0,
    {
        Self::default()
    }

    /// Shows `message` under `key` at time `now`: see `pushed`.
    pub fn push(&mut self, key: String, message: String, now: u64)
        requires
            old(self).wf(),
        ensures
            final(self).wf(),
            final(self).ticking() == old(self).ticking(),
            final(self)@ == pushed(old(self)@, old(self).next_generation(), key@, message@, now),
            final(self).next_generation() == if shown(old(self)@, key@) {
                old(self).next_generation()
            } else {
                old(self).next_generation().wrapping_add(1)
            },
    {
        let ghost before = self@;
        let mut i: usize = 0;
        while i < self.toasts.len()
            invariant
                i <= self.toasts.len(),
                self@ == before,
                toast_views(self.toasts@) == before,
                forall|j: int| 0 <= j < i ==> before[j].key != key@,
            ensures
                i < self.toasts.len() ==> before[i as int].key == key@,
            decreases self.toasts.len() - i,
        {
            if self.toasts[i].key == key {
                assert(before[i as int] == self.toasts@[i as int]@);
                break;
            }
            i = i + 1;
        }
        if i < self.toasts.len() {
            proof {
                assert(before[i as int].key == key@);
                assert(has_key(before, key@, i as int));
                assert forall|k: int| has_key(before, key@, k) implies k == i by {
                    if k != i {
                        assert(before[k].key == before[i as int].key);
                    }
                }
            }
            let generation = self.toasts[i].generation.wrapping_add(1);
            let t = Toast {
                key,
                message,
                generation,
                created_at: now,
                closing_since: None,
                jump_at: Some(now),
            };
            self.toasts.set(i, t);
            proof {
                let c = choose|c: int| has_key(before, key@, c);
                assert(c == i);
                assert(toast_views(self.toasts@) =~= before.update(i as int, t@));
                assert forall|a: int, b: int| 0 <= a < b < self@.len() implies #[trigger] self@[a].key
                    != #[trigger] self@[b].key by {
                    if a != i && b != i {
                        assert(self@[a] == before[a] && self@[b] == before[b]);
                    } else if a == i {
                        assert(self@[b] == before[b]);
                    } else {
                        assert(self@[a] == before[a]);
                    }
                }
            }
        } else {
            self.next_generation = self.next_generation.wrapping_add(1);
            let t = Toast {
                key,
                message,
                generation: self.next_generation,
                created_at: now,
                closing_since: None,
                jump_at: None,
            };
            self.toasts.push(t);
            proof {
                assert(toast_views(self.toasts@) =~= before.push(t@));
                assert forall|a: int, b: int| 0 <= a < b < self@.len() implies #[trigger] self@[a].key
                    != #[trigger] self@[b].key by {
                    if b == before.len() {
                        assert(!has_key(before, key@, a));
                    } else {
                        assert(self@[a] == before[a] && self@[b] == before[b]);
                    }
                }
            }
        }
    }

    /// The toasts shown, oldest first, for drawing.
    pub fn toasts(&self) -> (r: &Vec<Toast>)
        ensures
            toast_views(r@) == self@,
    {
        &self.toasts
    }

    pub fn is_ticking(&self) -> (b: bool)
        ensures
            b == self.ticking(),
    {
        self.ticking
    }

    pub fn set_ticking(&mut self, ticking: bool)
        ensures
            final(self).ticking() == ticking,
            final(self)@ == old(self)@,
            final(self).next_generation() == old(self).next_generation(),
    {
        self.ticking = ticking;
    }

    /// Advances the show, closing and jump timers to `now`. Says whether
    /// another tick is needed: whether any toast is left.
    pub fn tick(&mut self, now: u64) -> (more: bool)
        requires
            old(self).wf(),
        ensures
            final(self).wf(),
            final(self)@ == after_tick(old(self)@, now),
            final(self).ticking() == old(self).ticking(),
            final(self).next_generation() == old(self).next_generation(),
            more == (final(self)@.len() > 0),
    {
        let ghost before = self@;
        let mut old_toasts: Vec<Toast> = Vec::new();
        std::mem::swap(&mut old_toasts, &mut self.toasts);
        let mut kept: Vec<Toast> = Vec::new();
        for t in it: old_toasts
            invariant
                toast_views(it.seq()) == before,
                toast_views(kept@) == after_tick(before.take(it.index() as int), now),
        {
            let ghost i = it.index();
            proof {
                assert(toast_views(it.seq())[i as int] == t@);
                assert(before.take(i + 1).drop_last() =~= before.take(i as int));
            }
            let mut t = t;
            if t.closing_since.is_none() && elapsed_ms(t.created_at, now) >= SHOW_FOR_MS {
                t.closing_since = Some(now);
            }
            if let Some(j) = t.jump_at {
                if elapsed_ms(j, now) >= JUMP_MS {
                    t.jump_at = None;
                }
            }
            let stay = match t.closing_since {
                None => true,
                Some(since) => elapsed_ms(since, now) < ANIMATION_MS,
            };
            if stay {
                let ghost k = kept@;
                kept.push(t);
                proof {
                    assert(toast_views(kept@) =~= toast_views(k).push(t@));
                }
            }
        }
        proof {
            assert(before.take(before.len() as int) =~= before);
            lemma_after_tick_keeps_unique(before, now);
        }
        self.toasts = kept;
        self.toasts.len() > 0
    }
}

/// Every toast left after a tick is a ticked toast from before, in order.
proof fn lemma_after_tick_subseq(toasts: Seq<ToastView>, now: u64, k: int) -> (i: int)
    requires
        0 <= k < after_tick(toasts, now).len(),
    ensures
        0 <= i < toasts.len(),
        after_tick(toasts, now)[k] == ticked(toasts[i], now),
    decreases toasts.len(),
{
    let rest = after_tick(toasts.drop_last(), now);
    if k < rest.len() {
        lemma_after_tick_subseq(toasts.drop_last(), now, k)
    } else {
        (toasts.len() - 1) as int
    }
}

proof fn lemma_after_tick_keeps_unique(toasts: Seq<ToastView>, now: u64)
    requires
        keys_unique(toasts),
    ensures
        keys_unique(after_tick(toasts, now)),
        forall|k: int| 0 <= k < after_tick(toasts, now).len() ==> exists|i: int|
            0 <= i < toasts.len() && #[trigger] after_tick(toasts, now)[k].key == toasts[i].key,
    decreases toasts.len(),
{
    if toasts.len() > 0 {
        let d = toasts.drop_last();
        assert(keys_unique(d)) by {
            assert forall|i: int, j: int| 0 <= i < j < d.len() implies #[trigger] d[i].key != #[trigger] d[j].key by {
                assert(d[i] == toasts[i] && d[j] == toasts[j]);
            }
        }
        lemma_after_tick_keeps_unique(d, now);
        let rest = after_tick(d, now);
        let r = after_tick(toasts, now);
        let last = toasts.len() - 1;
        assert forall|k: int| 0 <= k < rest.len() implies rest[k].key != toasts[last].key by {
            let i = choose|i: int| 0 <= i < d.len() && rest[k].key == d[i].key;
            assert(d[i] == toasts[i]);
        }
        assert forall|k: int| 0 <= k < r.len() implies exists|i: int|
            0 <= i < toasts.len() && #[trigger] r[k].key == toasts[i].key by {
            if k < rest.len() {
                let i = choose|i: int| 0 <= i < d.len() && rest[k].key == d[i].key;
                assert(d[i] == toasts[i]);
                assert(r[k] == rest[k]);
            } else {
                assert(r[k].key == toasts[last].key);
            }
        }
        assert forall|i: int, j: int| 0 <= i < j < r.len() implies #[trigger] r[i].key != #[trigger] r[j].key by {
            if j < rest.len() {
                assert(r[i] == rest[i] && r[j] == rest[j]);
            } else {
                assert(r[i] == rest[i]);
                assert(r[j].key == toasts[last].key);
            }
        }
    }
}

/// One toast per key: pushing keeps keys unique and leaves exactly one
/// toast with the pushed key; a repeat does not stack another copy, it keeps
/// the number of toasts and restarts the timer of the toast it repeats.
pub proof fn law_one_toast_per_key(
    toasts: Seq<ToastView>,
    next_generation: u64,
    key: Seq<char>,
    message: Seq<char>,
    now: u64,
)
    requires
        keys_unique(toasts),
    ensures
        keys_unique(pushed(toasts, next_generation, key, message, now)),
        shown(pushed(toasts, next_generation, key, message, now), key),
        shown(toasts, key) ==> pushed(toasts, next_generation, key, message, now).len() == toasts.len(),
        forall|i: int|
            has_key(pushed(toasts, next_generation, key, message, now), key, i) ==> {
                let t = #[trigger] pushed(toasts, next_generation, key, message, now)[i];
                t.message == message && t.created_at == now && t.closing_since is None
            },
{
    let after = pushed(toasts, next_generation, key, message, now);
    if shown(toasts, key) {
        let c = choose|c: int| has_key(toasts, key, c);
        assert(has_key(after, key, c));
        assert forall|a: int, b: int| 0 <= a < b < after.len() implies #[trigger] after[a].key
            != #[trigger] after[b].key by {
            if a != c && b != c {
                assert(after[a] == toasts[a] && after[b] == toasts[b]);
            } else if a == c {
                assert(after[b] == toasts[b]);
            } else {
                assert(after[a] == toasts[a]);
            }
        }
        assert forall|i: int| has_key(after, key, i) implies i == c by {
            if i != c {
                assert(after[i] == toasts[i]);
            }
        }
    } else {
        let n = toasts.len() as int;
        assert(has_key(after, key, n));
        assert forall|a: int, b: int| 0 <= a < b < after.len() implies #[trigger] after[a].key
            != #[trigger] after[b].key by {
            if b == n {
                assert(!has_key(toasts, key, a));
            } else {
                assert(after[a] == toasts[a] && after[b] == toasts[b]);
            }
        }
        assert forall|i: int| has_key(after, key, i) implies i == n by {
            if i != n {
                assert(after[i] == toasts[i]);
                assert(has_key(toasts, key, i));
            }
        }
    }
}

} // verus!
