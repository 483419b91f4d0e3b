//! Notifications stacked at the bottom of the window. A notification with a
//! key replaces the shown one with that key instead of stacking another; each
//! dismissal timer only acts on the generation it was started for. Times are
//! milliseconds on a monotonic clock that the app reads.

use vstd::prelude::*;

use crate::session::opt_view;
use crate::text::owned;

verus! {

broadcast use vstd::string::group_string_axioms;

/// How long a notification shows before it starts to close.
pub const SHOW_DURATION_MS: u64 = 2500;

/// How long the closing animation runs.
pub const PANEL_ANIMATION_MS: u64 = 180;

/// A message to show, with an optional key.
#[derive(Debug)]
pub struct Notification {
    message: String,
    key: Option<String>,
}

impl Clone for Notification {
    fn clone(&self) -> (r: Self)
        ensures
            r == *self,
    {
        Notification {
            message: self.message.clone(),
            key: match &self.key {
                Some(k) => Some(k.clone()),
                None => None,
            },
        }
    }
}

impl Notification {
    pub closed spec fn message_view(&self) -> Seq<char> {
        self.message@
    }

    pub closed spec fn key_view(&self) -> Option<Seq<char>> {
        opt_view(self.key)
    }

    /// An empty message without a key.
    pub fn new() -> (n: Self)
        ensures
            n.message_view() == Seq::<char>::empty(),
            n.key_view() is None,
    {
        Notification { message: String::new(), key: None }
    }

    pub fn message(self, message: String) -> (n: Self)
        ensures
            n.message_view() == message@,
            n.key_view() == self.key_view(),
    {
        Notification { message, key: self.key }
    }

    pub fn key(self, key: String) -> (n: Self)
        ensures
            n.message_view() == self.message_view(),
            n.key_view() == Some(key@),
    {
        Notification { message: self.message, key: Some(key) }
    }
}

impl From<String> for Notification {
    fn from(message: String) -> (n: Self) {
        Notification::new().message(message)
    }
}

impl vstd::std_specs::convert::FromSpecImpl<String> for Notification {
    open spec fn obeys_from_spec() -> bool {
        false
    }

    open spec fn from_spec(v: String) -> Notification {
        arbitrary()
    }
}

/// A notification on screen.
struct ActiveNotification {
    id: u64,
    key: Option<String>,
    message: String,
    generation: u64,
    closing: bool,
    created_at: u64,
    closing_since: Option<u64>,
    jump_at: Option<u64>,
}

/// The value of a notification on screen, strings as characters.
pub struct NoteView {
    pub id: u64,
    pub key: Option<Seq<char>>,
    pub message: Seq<char>,
    pub generation: u64,
    pub closing: bool,
    pub created_at: u64,
    pub closing_since: Option<u64>,
    pub jump_at: Option<u64>,
}

impl View for ActiveNotification {
    type V = NoteView;

    closed spec fn view(&self) -> NoteView {
        NoteView {
            id: self.id,
            key: opt_view(self.key),
            message: self.message@,
            generation: self.generation,
            closing: self.closing,
            created_at: self.created_at,
            closing_since: self.closing_since,
            jump_at: self.jump_at,
        }
    }
}

spec fn note_views(items: Seq<ActiveNotification>) -> Seq<NoteView> {
    items.map_values(|n: ActiveNotification| n@)
}

/// Ids are unique and below the next id; no two notifications share a key.
pub open spec fn notes_wf(items: Seq<NoteView>, next_id: u64) -> bool {
    &&& forall|i: int| 0 <= i < items.len() ==> #[trigger] items[i].id < next_id
    &&& forall|i: int, j: int| 0 <= i < j < items.len() ==> #[trigger] items[i].id != #[trigger] items[j].id
    &&& forall|i: int, j: int|
        0 <= i < j < items.len() && (#[trigger] items[i]).key is Some ==> items[i].key != (
        #[trigger] items[j]).key
}

/// The notification at `i` carries `key`.
pub open spec fn keyed(items: Seq<NoteView>, key: Option<Seq<char>>, i: int) -> bool {
    key is Some && 0 <= i < items.len() && items[i].key == key
}

/// The counter a push of `key` advances is below `u64::MAX`: the shown
/// notification's generation when one carries the key, else the next id.
pub open spec fn push_fits(items: Seq<NoteView>, next_id: u64, key: Option<Seq<char>>) -> bool {
    if exists|i: int| keyed(items, key, i) {
        items[choose|i: int| keyed(items, key, i)].generation < u64::MAX
    } else {
        next_id < u64::MAX
    }
}

/// The notifications after `note` is pushed at `now`: one with the same key
/// takes the message and a new generation, stops closing and jumps; without
/// one, a new notification with the next id and generation 0 is added last.
pub open spec fn pushed_notes(
    items: Seq<NoteView>,
    next_id: u64,
    key: Option<Seq<char>>,
    message: Seq<char>,
    now: u64,
) -> Seq<NoteView> {
    if exists|i: int| keyed(items, key, i) {
        let i = choose|i: int| keyed(items, key, i);
        items.update(
            i,
            NoteView {
                message,
                generation: (items[i].generation + 1) as u64,
                closing: false,
                closing_since: None,
                jump_at: Some(now),
                ..items[i]
            },
        )
    } else {
        items.push(
            NoteView {
                id: next_id,
                key,
                message,
                generation: 0,
                closing: false,
                created_at: now,
                closing_since: None,
                jump_at: None,
            },
        )
    }
}

/// The notification with `id`, if shown.
pub open spec fn with_id(items: Seq<NoteView>, id: u64, i: int) -> bool {
    0 <= i < items.len() && items[i].id == id
}

/// The notification with `id` is shown, at `generation`.
pub open spec fn shows(items: Seq<NoteView>, id: u64, generation: u64) -> bool {
    exists|i: int| #[trigger] with_id(items, id, i) && items[i].generation == generation
}

/// The notifications the app shows.
pub struct NotificationList {
    next_id: u64,
    items: Vec<ActiveNotification>,
}

impl NotificationList {
    pub closed spec fn view(&self) -> Seq<NoteView> {
        note_views(self.items@)
    }

    pub closed spec fn next_id(&self) -> u64 {
        self.next_id
    }

    pub open spec fn wf(&self) -> bool {
        notes_wf(self@, self.next_id())
    }

    /// An empty list; the app makes it the window's notification center.
    pub fn new() -> (l: Self)
        ensures
            l@.len() == 0,
            l.next_id() == 0,
            l.wf(),
    {
        NotificationList { next_id: 0, items: Vec::new() }
    }

    /// Shows `notification` at `now` (see `pushed_notes`) and returns the id
    /// and generation whose dismissal timer the app starts.
    pub fn push(&mut self, notification: Notification, now: u64) -> (r: (u64, u64))
        requires
            old(self).wf(),
            push_fits(old(self)@, old(self).next_id(), notification.key_view()),
        ensures
            final(self).wf(),
            final(self)@ == pushed_notes(
                old(self)@,
                old(self).next_id(),
                notification.key_view(),
                notification.message_view(),
                now,
            ),
            final(self).next_id() == if exists|i: int| keyed(old(self)@, notification.key_view(), i) {
                old(self).next_id()
            } else {
                (old(self).next_id() + 1) as u64
            },
            shows(final(self)@, r.0, r.1),
    {
        let ghost before = self@;
        let ghost key = notification.key_view();
        let Notification { message, key: nkey } = notification;
        let mut i: usize = 0;
        let found = nkey.is_some();
        while i < self.items.len()
            invariant
                i <= self.items.len(),
                self@ == before,
                note_views(self.items@) == before,
                key == opt_view(nkey),
                found == nkey is Some,
                forall|j: int| 0 <= j < i ==> !keyed(before, key, j),
            ensures
                i < self.items.len() ==> keyed(before, key, i as int),
            decreases self.items.len() - i,
        {
            let same = found && match (&self.items[i].key, &nkey) {
                (Some(a), Some(b)) => *a == *b,
                (None, None) => true,
                _ => false,
            };
            if same {
                assert(before[i as int] == self.items@[i as int]@);
                break;
            }
            proof {
                assert(before[i as int] == self.items@[i as int]@);
            }
            i = i + 1;
        }
        if i < self.items.len() {
            proof {
                let c = choose|c: int| keyed(before, key, c);
                assert(keyed(before, key, i as int));
                if c != i {
                    if c < i {
                        assert(before[c].key != before[i as int].key);
                    } else {
                        assert(before[i as int].key != before[c].key);
                    }
                }
            }
            let id = self.items[i].id;
            let generation = self.items[i].generation + 1;
            let created_at = self.items[i].created_at;
            let item = ActiveNotification {
                id,
                key: nkey,
                message,
                generation,
                closing: false,
                created_at,
                closing_since: None,
                jump_at: Some(now),
            };
            self.items.set(i, item);
            proof {
                assert(note_views(self.items@) =~= before.update(i as int, item@));
                assert(with_id(self@, id, i as int) && self@[i as int].generation == generation);
                assert(shows(self@, id, generation));
            }
            (id, generation)
        } else {
            let id = self.next_id;
            self.next_id = self.next_id + 1;
            let item = ActiveNotification {
                id,
                key: nkey,
                message,
                generation: 0,
                closing: false,
                created_at: now,
                closing_since: None,
                jump_at: None,
            };
            self.items.push(item);
            proof {
                assert(note_views(self.items@) =~= before.push(item@));
                assert(with_id(self@, id, before.len() as int) && self@[before.len() as int].generation == 0);
                assert(shows(self@, id, 0));
                assert forall|a: int, b: int|
                    0 <= a < b < self@.len() && (#[trigger] self@[a]).key is Some implies self@[a].key != (
                    #[trigger] self@[b]).key by {
                    if b == before.len() {
                        assert(!keyed(before, key, a));
                    } else {
                        assert(self@[a] == before[a] && self@[b] == before[b]);
                    }
                }
            }
            (id, 0)
        }
    }

    /// The show timer of (`id`, `generation`) ran out at `now`: the
    /// notification starts closing, unless it was replaced since (its
    /// generation moved on) or is gone.
    pub fn begin_dismiss(&mut self, id: u64, generation: u64, now: u64)
        requires
            old(self).wf(),
        ensures
            final(self).wf(),
            final(self).next_id() == old(self).next_id(),
            forall|i: int|
                with_id(old(self)@, id, i) && old(self)@[i].generation == generation ==> final(self)@
                    == old(self)@.update(
                    i,
                    NoteView { closing: true, closing_since: Some(now), ..old(self)@[i] },
                ),
            (forall|i: int| with_id(old(self)@, id, i) ==> old(self)@[i].generation != generation)
                ==> final(self)@ == old(self)@,
    {
        let ghost before = self@;
        let mut i: usize = 0;
        while i < self.items.len()
            invariant
                i <= self.items.len(),
                self@ == before,
                note_views(self.items@) == before,
                forall|j: int| 0 <= j < i ==> !with_id(before, id, j),
            ensures
                i < self.items.len() ==> with_id(before, id, i as int),
            decreases self.items.len() - i,
        {
            if self.items[i].id == id {
                assert(before[i as int] == self.items@[i as int]@);
                break;
            }
            assert(before[i as int] == self.items@[i as int]@);
            i = i + 1;
        }
        if i < self.items.len() {
            assert(before[i as int] == self.items@[i as int]@);
            if self.items[i].generation != generation {
                proof {
                    assert forall|k: int| with_id(before, id, k) implies k == i by {
                        if k < i {
                            assert(before[k].id != before[i as int].id);
                        } else if k > i {
                            assert(before[i as int].id != before[k].id);
                        }
                    }
                }
                return;
            }
            let item = ActiveNotification {
                id: self.items[i].id,
                key: match &self.items[i].key {
                    Some(k) => Some(k.clone()),
                    None => None,
                },
                message: self.items[i].message.clone(),
                generation: self.items[i].generation,
                closing: true,
                created_at: self.items[i].created_at,
                closing_since: Some(now),
                jump_at: self.items[i].jump_at,
            };
            self.items.set(i, item);
            proof {
                assert(note_views(self.items@) =~= before.update(i as int, item@));
                assert forall|k: int| with_id(before, id, k) implies k == i by {
                    if k < i {
                        assert(before[k].id != before[i as int].id);
                    } else if k > i {
                        assert(before[i as int].id != before[k].id);
                    }
                }
                assert forall|a: int, b: int|
                    0 <= a < b < self@.len() && (#[trigger] self@[a]).key is Some implies self@[a].key != (
                    #[trigger] self@[b]).key by {
                    assert(self@[a].key == before[a].key && self@[b].key == before[b].key);
                }
                assert forall|a: int, b: int| 0 <= a < b < self@.len() implies #[trigger] self@[a].id
                    != #[trigger] self@[b].id by {
                    assert(self@[a].id == before[a].id && self@[b].id == before[b].id);
                }
                assert forall|a: int| 0 <= a < self@.len() implies #[trigger] self@[a].id < self.next_id by {
                    assert(self@[a].id == before[a].id);
                }
            }
        }
    }

    /// The closing of (`id`, `generation`) ended: that notification is
    /// removed; a newer generation of it, or any other, stays.
    pub fn remove(&mut self, id: u64, generation: u64)
        requires
            old(self).wf(),
        ensures
            final(self).wf(),
            final(self).next_id() == old(self).next_id(),
            final(self)@ == old(self)@.filter(|n: NoteView| n.id != id || n.generation != generation),
    {
        let ghost before = self@;
        let mut old_items: Vec<ActiveNotification> = Vec::new();
        std::mem::swap(&mut old_items, &mut self.items);
        let mut kept: Vec<ActiveNotification> = Vec::new();
        let ghost keep = |n: NoteView| n.id != id || n.generation != generation;
        for item in it: old_items
            invariant
                note_views(it.seq()) == before,
                note_views(kept@) == before.take(it.index() as int).filter(keep),
                keep == (|n: NoteView| n.id != id || n.generation != generation),
        {
            let ghost i = it.index();
            proof {
                assert(note_views(it.seq())[i as int] == item@);
                assert(before.take(i + 1).drop_last() =~= before.take(i as int));
                reveal(Seq::filter);
                assert(before.take(i + 1).last() == item@);
            }
            if item.id != id || item.generation != generation {
                let ghost k = kept@;
                kept.push(item);
                proof {
                    assert(note_views(kept@) =~= note_views(k).push(item@));
                }
            }
        }
        proof {
            assert(before.take(before.len() as int) =~= before);
            lemma_filter_keeps_wf(before, keep, self.next_id);
        }
        self.items = kept;
    }
}

/// What the list draws of one notification.
#[derive(Debug)]
pub struct ShownNote {
    pub id: u64,
    pub message: String,
    pub created_at: u64,
    pub closing_since: Option<u64>,
    pub jump_at: Option<u64>,
}

impl NotificationList {
    /// Whether `push` of `notification` can count on the counter it
    /// advances: see `push_fits`.
    pub fn can_push(&self, notification: &Notification) -> (b: bool)
        requires
            self.wf(),
        ensures
            b == push_fits(self@, self.next_id(), notification.key_view()),
    {
        let ghost items = self@;
        let ghost key = notification.key_view();
        let found = notification.key.is_some();
        let mut i: usize = 0;
        while i < self.items.len()
            invariant
                i <= self.items.len(),
                self@ == items,
                note_views(self.items@) == items,
                key == opt_view(notification.key),
                found == notification.key is Some,
                forall|j: int| 0 <= j < i ==> !keyed(items, key, j),
            ensures
                i < self.items.len() ==> keyed(items, key, i as int),
            decreases self.items.len() - i,
        {
            let same = found && match (&self.items[i].key, &notification.key) {
                (Some(a), Some(b)) => *a == *b,
                (None, None) => true,
                _ => false,
            };
            if same {
                assert(items[i as int] == self.items@[i as int]@);
                break;
            }
            proof {
                assert(items[i as int] == self.items@[i as int]@);
            }
            i = i + 1;
        }
        if i < self.items.len() {
            proof {
                let c = choose|c: int| keyed(items, key, c);
                assert(keyed(items, key, i as int));
                if c != i {
                    if c < i {
                        assert(items[c].key != items[i as int].key);
                    } else {
                        assert(items[i as int].key != items[c].key);
                    }
                }
                assert(items[i as int] == self.items@[i as int]@);
            }
            self.items[i].generation < u64::MAX
        } else {
            self.next_id < u64::MAX
        }
    }

    /// The notifications in the order they are drawn.
    pub fn shown(&self) -> (r: Vec<ShownNote>)
        ensures
            r@.len() == self@.len(),
            forall|i: int|
                0 <= i < r@.len() ==> {
                    &&& (#[trigger] r@[i]).id == self@[i].id
                    &&& r@[i].message@ == self@[i].message
                    &&& r@[i].created_at == self@[i].created_at
                    &&& r@[i].closing_since == self@[i].closing_since
                    &&& r@[i].jump_at == self@[i].jump_at
                },
    {
        let mut r: Vec<ShownNote> = Vec::new();
        let mut i: usize = 0;
        while i < self.items.len()
            invariant
                i <= self.items@.len(),
                self@ == note_views(self.items@),
                r@.len() == i,
                forall|k: int|
                    0 <= k < i ==> {
                        &&& (#[trigger] r@[k]).id == self@[k].id
                        &&& r@[k].message@ == self@[k].message
                        &&& r@[k].created_at == self@[k].created_at
                        &&& r@[k].closing_since == self@[k].closing_since
                        &&& r@[k].jump_at == self@[k].jump_at
                    },
            decreases self.items@.len() - i,
        {
            let item = &self.items[i];
            r.push(ShownNote {
                id: item.id,
                message: item.message.clone(),
                created_at: item.created_at,
                closing_since: item.closing_since,
                jump_at: item.jump_at,
            });
            i = i + 1;
        }
        r
    }
}

/// A repeat outlives the timers of what it repeats: pushing a key that is
/// shown keeps the notification (same id, same place, no new one) with the
/// next generation, open again; the timers started for the earlier
/// generation then match nothing, and `begin_dismiss` and `remove` leave the
/// list as it is for them.
pub proof fn law_repeat_outlives_old_timers(
    items: Seq<NoteView>,
    next_id: u64,
    key: Option<Seq<char>>,
    message: Seq<char>,
    now: u64,
    i: int,
)
    requires
        notes_wf(items, next_id),
        keyed(items, key, i),
        items[i].generation < u64::MAX,
    ensures
        pushed_notes(items, next_id, key, message, now).len() == items.len(),
        pushed_notes(items, next_id, key, message, now)[i].id == items[i].id,
        pushed_notes(items, next_id, key, message, now)[i].generation == items[i].generation + 1,
        !pushed_notes(items, next_id, key, message, now)[i].closing,
        forall|k: int|
            with_id(pushed_notes(items, next_id, key, message, now), items[i].id, k) ==> k == i,
{
    let c = choose|c: int| keyed(items, key, c);
    if c != i {
        if c < i {
            assert(items[c].key != items[i].key);
        } else {
            assert(items[i].key != items[c].key);
        }
    }
    let after = pushed_notes(items, next_id, key, message, now);
    assert forall|k: int| with_id(after, items[i].id, k) implies k == i by {
        if k != i {
            assert(after[k] == items[k]);
            if k < i {
                assert(items[k].id != items[i].id);
            } else {
                assert(items[i].id != items[k].id);
            }
        }
    }
}

proof fn lemma_filter_keeps_wf(items: Seq<NoteView>, keep: spec_fn(NoteView) -> bool, next_id: u64)
    requires
        notes_wf(items, next_id),
    ensures
        notes_wf(items.filter(keep), next_id),
    decreases items.len(),
{
    reveal(Seq::filter);
    if items.len() > 0 {
        let d = items.drop_last();
        assert(notes_wf(d, next_id)) by {
            assert forall|i: int| 0 <= i < d.len() implies #[trigger] d[i].id < next_id by {
                assert(d[i] == items[i]);
            }
            assert forall|i: int, j: int| 0 <= i < j < d.len() implies #[trigger] d[i].id != #[trigger] d[j].id by {
                assert(d[i] == items[i] && d[j] == items[j]);
            }
            assert forall|i: int, j: int|
                0 <= i < j < d.len() && (#[trigger] d[i]).key is Some implies d[i].key != (#[trigger] d[j]).key by {
                assert(d[i] == items[i] && d[j] == items[j]);
            }
        }
        lemma_filter_keeps_wf(d, keep, next_id);
        let f = d.filter(keep);
        let last = items.last();
        if keep(last) {
            let r = f.push(last);
            assert(items.filter(keep) == r);
            assert forall|k: int| 0 <= k < f.len() implies f[k].id != last.id && (f[k].key is Some ==> f[k].key != last.key) by {
                d.lemma_filter_contains_rev(keep, f[k]);
                assert(d.contains(f[k]));
                let m = choose|m: int| 0 <= m < d.len() && d[m] == f[k];
                assert(d[m] == items[m]);
                assert(items[m].id != items[items.len() - 1].id);
            }
            assert forall|i: int| 0 <= i < r.len() implies #[trigger] r[i].id < next_id by {
                if i < f.len() {
                    assert(r[i] == f[i]);
                }
            }
            assert forall|i: int, j: int| 0 <= i < j < r.len() implies #[trigger] r[i].id != #[trigger] r[j].id by {
                assert(r[i] == f[i]);
            }
            assert forall|i: int, j: int|
                0 <= i < j < r.len() && (#[trigger] r[i]).key is Some implies r[i].key != (#[trigger] r[j]).key by {
                assert(r[i] == f[i]);
            }
        } else {
            assert(items.filter(keep) == f);
        }
    }
}

} // verus!
