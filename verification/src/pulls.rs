//! Local rows of pull requests and the events that bring them in line with
//! GitHub.

use vstd::prelude::*;

use crate::text::{concat3, owned, seq_lt, str_lt, lemma_lt_total, lemma_lt_transitive, lemma_lt_irreflexive};

verus! {

broadcast use vstd::string::group_string_axioms;

/// The id of the row that stores the sync watermark.
pub const SYNC_ROW: &'static str = "github";

/// How many pull requests the first sync fetches at most.
pub const INITIAL_LIMIT: usize = 500;

/// The watermark used when nothing newer is known.
pub const EPOCH: &'static str = "1970-01-01T00:00:00Z";

/// One pull request row.
#[derive(Debug, PartialEq, Eq)]
pub struct PullRequest {
    pub id: String,
    pub number: i64,
    pub title: String,
    pub state: String,
    pub url: String,
    pub repository: String,
    pub author: String,
    pub updated_at: String,
    pub ci: String,
    pub approvals: i64,
    pub required_approvals: i64,
    pub has_conflicts: bool,
}

/// The value of a `PullRequest` row, strings as characters.
pub struct PullView {
    pub id: Seq<char>,
    pub number: i64,
    pub title: Seq<char>,
    pub state: Seq<char>,
    pub url: Seq<char>,
    pub repository: Seq<char>,
    pub author: Seq<char>,
    pub updated_at: Seq<char>,
    pub ci: Seq<char>,
    pub approvals: i64,
    pub required_approvals: i64,
    pub has_conflicts: bool,
}

impl View for PullRequest {
    type V = PullView;

    open spec fn view(&self) -> PullView {
        PullView {
            id: self.id@,
            number: self.number,
            title: self.title@,
            state: self.state@,
            url: self.url@,
            repository: self.repository@,
            author: self.author@,
            updated_at: self.updated_at@,
            ci: self.ci@,
            approvals: self.approvals,
            required_approvals: self.required_approvals,
            has_conflicts: self.has_conflicts,
        }
    }
}

impl Clone for PullRequest {
    fn clone(&self) -> (r: Self)
        ensures
            r == *self,
    {
        PullRequest {
            id: self.id.clone(),
            number: self.number,
            title: self.title.clone(),
            state: self.state.clone(),
            url: self.url.clone(),
            repository: self.repository.clone(),
            author: self.author.clone(),
            updated_at: self.updated_at.clone(),
            ci: self.ci.clone(),
            approvals: self.approvals,
            required_approvals: self.required_approvals,
            has_conflicts: self.has_conflicts,
        }
    }
}

impl PullRequest {
    /// Whether every field of the two rows is equal.
    pub fn same(&self, other: &PullRequest) -> (b: bool)
        ensures
            b == (self@ == other@),
    {
        self.id == other.id && self.number == other.number && self.title == other.title
            && self.state == other.state && self.url == other.url && self.repository
            == other.repository && self.author == other.author && self.updated_at
            == other.updated_at && self.ci == other.ci && self.approvals == other.approvals
            && self.required_approvals == other.required_approvals && self.has_conflicts
            == other.has_conflicts
    }
}

/// The stored sync watermark.
#[derive(Debug, PartialEq, Eq)]
pub struct SyncState {
    pub id: String,
    pub watermark: String,
}

/// One change to the local rows.
#[derive(Debug, PartialEq, Eq)]
pub enum Event {
    PrOpened(PullRequest),
    PrUpdated(PullRequest),
    PrClosed(PullRequest),
    PrMerged(PullRequest),
    Watermark { at: String },
}

/// The value of an `Event`.
pub enum EventView {
    PrOpened(PullView),
    PrUpdated(PullView),
    PrClosed(PullView),
    PrMerged(PullView),
    Watermark(Seq<char>),
}

impl View for Event {
    type V = EventView;

    open spec fn view(&self) -> EventView {
        match self {
            Event::PrOpened(p) => EventView::PrOpened(p@),
            Event::PrUpdated(p) => EventView::PrUpdated(p@),
            Event::PrClosed(p) => EventView::PrClosed(p@),
            Event::PrMerged(p) => EventView::PrMerged(p@),
            Event::Watermark { at } => EventView::Watermark(at@),
        }
    }
}

/// Applies events to the stored rows: the app's store runs the same change
/// as SQL on its tables.
pub struct PullMutator;

/// The rows after a pull request event: the rows with its id go, and it is
/// added last (an upsert).
pub open spec fn upserted(rows: Seq<PullView>, p: PullView) -> Seq<PullView> {
    rows.filter(|r: PullView| r.id != p.id).push(p)
}

impl PullMutator {
    /// What `event` does to the stored rows and the sync state: a pull
    /// request event upserts its row; a watermark replaces the sync row.
    pub fn apply(&self, rows: &mut Vec<PullRequest>, sync: &mut Option<SyncState>, event: Event)
        ensures
            match event {
                Event::Watermark { at } => {
                    &&& pull_views(final(rows)@) == pull_views(old(rows)@)
                    &&& (*final(sync)) is Some
                    &&& (*final(sync))->0.id@ == SYNC_ROW@
                    &&& (*final(sync))->0.watermark == at
                },
                Event::PrOpened(p) | Event::PrUpdated(p) | Event::PrClosed(p) | Event::PrMerged(p) => {
                    &&& pull_views(final(rows)@) == upserted(pull_views(old(rows)@), p@)
                    &&& *final(sync) == *old(sync)
                },
            },
    {
        match event {
            Event::Watermark { at } => {
                *sync = Some(SyncState { id: String::from_str(SYNC_ROW), watermark: at });
            },
            Event::PrOpened(p) | Event::PrUpdated(p) | Event::PrClosed(p) | Event::PrMerged(p) => {
                upsert_pull(rows, p);
            },
        }
    }
}

/// What an event writes to a store of tables: the row that replaces every
/// row with its id, or the sync row that replaces the stored one.
#[derive(Debug, PartialEq, Eq)]
pub enum StoreWrite {
    ReplaceRow(PullRequest),
    ReplaceSyncState(SyncState),
}

impl PullMutator {
    /// The write `apply` makes, for a store that keeps its rows in tables:
    /// a pull request event replaces the rows with its id by its row; a
    /// watermark replaces the sync row by one with id `SYNC_ROW` holding it.
    pub fn write(&self, event: &Event) -> (w: StoreWrite)
        ensures
            match *event {
                Event::Watermark { at } => w matches StoreWrite::ReplaceSyncState(st) && st.id@ == SYNC_ROW@
                    && st.watermark@ == at@,
                Event::PrOpened(p) | Event::PrUpdated(p) | Event::PrClosed(p) | Event::PrMerged(p) => w
                    == StoreWrite::ReplaceRow(p),
            },
    {
        match event {
            Event::Watermark { at } => StoreWrite::ReplaceSyncState(
                SyncState { id: String::from_str(SYNC_ROW), watermark: at.clone() },
            ),
            Event::PrOpened(p) | Event::PrUpdated(p) | Event::PrClosed(p) | Event::PrMerged(p) => {
                StoreWrite::ReplaceRow(p.clone())
            },
        }
    }
}

fn upsert_pull(rows: &mut Vec<PullRequest>, pr: PullRequest)
    ensures
        pull_views(final(rows)@) == upserted(pull_views(old(rows)@), pr@),
{
    let ghost before = pull_views(rows@);
    let ghost keep = |r: PullView| r.id != pr@.id;
    let mut old_rows: Vec<PullRequest> = Vec::new();
    std::mem::swap(&mut old_rows, rows);
    for row in it: old_rows
        invariant
            pull_views(it.seq()) == before,
            pull_views(rows@) == before.take(it.index() as int).filter(keep),
            keep == (|r: PullView| r.id != pr@.id),
    {
        let ghost i = it.index();
        proof {
            assert(pull_views(it.seq())[i as int] == row@);
            assert(before.take(i + 1).drop_last() =~= before.take(i as int));
            reveal(Seq::filter);
            assert(before.take(i + 1).last() == row@);
        }
        if !(row.id == pr.id) {
            let ghost k = rows@;
            rows.push(row);
            proof {
                assert(pull_views(rows@) =~= pull_views(k).push(row@));
            }
        }
    }
    proof {
        assert(before.take(before.len() as int) =~= before);
    }
    let ghost k = rows@;
    rows.push(pr);
    proof {
        assert(pull_views(rows@) =~= pull_views(k).push(pr@));
    }
}

/// A pull request event leaves exactly one row with its id, the event's own
/// row, and keeps every other row.
pub proof fn law_upsert_leaves_one_row(rows: Seq<PullView>, p: PullView)
    ensures
        upserted(rows, p).last() == p,
        forall|i: int| 0 <= i < upserted(rows, p).len() - 1 ==> #[trigger] upserted(rows, p)[i].id != p.id,
        forall|i: int| 0 <= i < rows.len() && rows[i].id != p.id ==> upserted(rows, p).contains(#[trigger] rows[i]),
{
    let keep = |r: PullView| r.id != p.id;
    let f = rows.filter(keep);
    assert forall|i: int| 0 <= i < upserted(rows, p).len() - 1 implies #[trigger] upserted(rows, p)[i].id != p.id by {
        assert(upserted(rows, p)[i] == f[i]);
        rows.lemma_filter_pred(keep, i);
    }
    assert forall|i: int| 0 <= i < rows.len() && rows[i].id != p.id implies upserted(rows, p).contains(
        #[trigger] rows[i],
    ) by {
        rows.lemma_filter_contains(keep, i);
        let k = choose|k: int| 0 <= k < f.len() && f[k] == rows[i];
        assert(upserted(rows, p)[k] == rows[i]);
    }
}

/// The views of a list of rows.
pub open spec fn pull_views(s: Seq<PullRequest>) -> Seq<PullView> {
    s.map_values(|p: PullRequest| p@)
}

/// The views of a list of events.
pub open spec fn event_views(s: Seq<Event>) -> Seq<EventView> {
    s.map_values(|e: Event| e@)
}

/// The last local row with id `id`: the one a map built from the rows in
/// order keeps.
pub open spec fn last_with_id(local: Seq<PullView>, id: Seq<char>) -> Option<PullView>
    decreases local.len(),
{
    if local.len() == 0 {
        None
    } else if local.last().id == id {
        Some(local.last())
    } else {
        last_with_id(local.drop_last(), id)
    }
}

/// The event for a remote row given the local row with its id, if any: a new
/// row is opened, or closed or merged when it arrives so; an unchanged row
/// gives nothing; a row that became merged or closed gives that; any other
/// change is an update.
pub open spec fn classify_spec(previous: Option<PullView>, next: PullView) -> Option<EventView> {
    match previous {
        None => if next.state == "merged"@ {
            Some(EventView::PrMerged(next))
        } else if next.state == "closed"@ {
            Some(EventView::PrClosed(next))
        } else {
            Some(EventView::PrOpened(next))
        },
        Some(p) => if p == next {
            None
        } else if next.state == "merged"@ && p.state != "merged"@ {
            Some(EventView::PrMerged(next))
        } else if next.state == "closed"@ && p.state != "closed"@ {
            Some(EventView::PrClosed(next))
        } else {
            Some(EventView::PrUpdated(next))
        },
    }
}

/// The events for `remote` against `local`, one per changed remote row, in
/// the order of `remote`.
pub open spec fn changeset_spec(local: Seq<PullView>, remote: Seq<PullView>) -> Seq<EventView>
    decreases remote.len(),
{
    if remote.len() == 0 {
        Seq::empty()
    } else {
        let rest = changeset_spec(local, remote.drop_last());
        match classify_spec(last_with_id(local, remote.last().id), remote.last()) {
            Some(e) => rest.push(e),
            None => rest,
        }
    }
}

fn classify(previous: Option<&PullRequest>, next: &PullRequest) -> (r: Option<Event>)
    ensures
        match r {
            Some(e) => classify_spec(
                match previous {
                    Some(p) => Some(p@),
                    None => None,
                },
                next@,
            ) == Some(e@),
            None => classify_spec(
                match previous {
                    Some(p) => Some(p@),
                    None => None,
                },
                next@,
            ) is None,
        },
{
    proof {
        reveal_strlit("merged");
        reveal_strlit("closed");
    }
    let merged = owned("merged");
    let closed = owned("closed");
    match previous {
        None => {
            if next.state == merged {
                Some(Event::PrMerged(next.clone()))
            } else if next.state == closed {
                Some(Event::PrClosed(next.clone()))
            } else {
                Some(Event::PrOpened(next.clone()))
            }
        },
        Some(previous) => {
            if previous.same(next) {
                None
            } else if next.state == merged && previous.state != merged {
                Some(Event::PrMerged(next.clone()))
            } else if next.state == closed && previous.state != closed {
                Some(Event::PrClosed(next.clone()))
            } else {
                Some(Event::PrUpdated(next.clone()))
            }
        },
    }
}

fn find_last_with_id<'a>(local: &'a [PullRequest], id: &String) -> (r: Option<&'a PullRequest>)
    ensures
        match r {
            Some(p) => last_with_id(pull_views(local@), id@) == Some(p@),
            None => last_with_id(pull_views(local@), id@) is None,
        },
{
    let mut i = local.len();
    assert(local@.take(local@.len() as int) =~= local@);
    while i > 0
        invariant
            i <= local@.len(),
            last_with_id(pull_views(local@), id@) == last_with_id(pull_views(local@.take(i as int)), id@),
        decreases i,
    {
        proof {
            assert(pull_views(local@.take(i as int)).drop_last() =~= pull_views(local@.take(i - 1)));
        }
        if local[i - 1].id == *id {
            return Some(&local[i - 1]);
        }
        i = i - 1;
    }
    None
}

/// Diff a GitHub page against the local rows and emit one event per change.
pub fn changeset(local: &[PullRequest], remote: &[PullRequest]) -> (events: Vec<Event>)
    ensures
        event_views(events@) == changeset_spec(pull_views(local@), pull_views(remote@)),
{
    let mut events: Vec<Event> = Vec::new();
    let mut i: usize = 0;
    assert(local@.take(local@.len() as int) =~= local@);
    while i < remote.len()
        invariant
            i <= remote@.len(),
            event_views(events@) == changeset_spec(pull_views(local@), pull_views(remote@.take(i as int))),
        decreases remote.len() - i,
    {
        let found = find_last_with_id(local, &remote[i].id);
        let event = classify(found, &remote[i]);
        proof {
            assert(pull_views(remote@.take(i + 1)).drop_last() =~= pull_views(remote@.take(i as int)));
            assert(pull_views(remote@.take(i + 1)).last() == remote@[i as int]@);
        }
        match event {
            Some(e) => {
                events.push(e);
                assert(event_views(events@) =~= event_views(events@.drop_last()).push(e@));
            },
            None => {},
        }
        i = i + 1;
    }
    assert(remote@.take(remote@.len() as int) =~= remote@);
    events
}

/// Initial sync runs only when no watermark has been stored.
pub open spec fn search_query_spec(watermark: Option<Seq<char>>) -> Seq<char> {
    match watermark {
        None => "author:@me is:pr sort:updated-desc"@,
        Some(w) => "author:@me is:pr updated:>="@ + w + " sort:updated-desc"@,
    }
}

/// The search query of a sync: every pull request of the viewer, newest
/// first, filtered on the watermark when there is one.
pub fn search_query(watermark: Option<&str>) -> (q: String)
    ensures
        q@ == search_query_spec(
            match watermark {
                Some(w) => Some(w@),
                None => None,
            },
        ),
{
    match watermark {
        None => owned("author:@me is:pr sort:updated-desc"),
        Some(watermark) => concat3("author:@me is:pr updated:>=", watermark, " sort:updated-desc"),
    }
}

/// The larger of two timestamps in `str` order (the later argument on a tie).
pub open spec fn later(a: Seq<char>, b: Seq<char>) -> Seq<char> {
    if seq_lt(b, a) {
        a
    } else {
        b
    }
}

/// The newest `updated_at` of the rows, as `Iterator::max` picks it.
pub open spec fn newest(remote: Seq<PullView>) -> Option<Seq<char>>
    decreases remote.len(),
{
    if remote.len() == 0 {
        None
    } else {
        match newest(remote.drop_last()) {
            None => Some(remote.last().updated_at),
            Some(m) => Some(later(m, remote.last().updated_at)),
        }
    }
}

/// The watermark after a sync: kept when the fetch was cut short; otherwise
/// the newest of the stored mark and the fetched rows' update times.
pub open spec fn next_watermark_spec(
    previous: Option<Seq<char>>,
    remote: Seq<PullView>,
    complete: bool,
) -> Seq<char> {
    if !complete {
        match previous {
            Some(p) => p,
            None => EPOCH@,
        }
    } else {
        match (previous, newest(remote)) {
            (Some(p), Some(n)) => if seq_lt(n, p) {
                p
            } else {
                n
            },
            (_, Some(n)) => n,
            (Some(p), None) => p,
            (None, None) => EPOCH@,
        }
    }
}

fn newest_update<'a>(remote: &'a [PullRequest]) -> (r: Option<&'a str>)
    ensures
        match r {
            Some(n) => newest(pull_views(remote@)) == Some(n@),
            None => newest(pull_views(remote@)) is None,
        },
{
    let mut best: Option<&str> = None;
    let mut i: usize = 0;
    while i < remote.len()
        invariant
            i <= remote@.len(),
            match best {
                Some(n) => newest(pull_views(remote@.take(i as int))) == Some(n@),
                None => newest(pull_views(remote@.take(i as int))) is None,
            },
        decreases remote.len() - i,
    {
        proof {
            assert(pull_views(remote@.take(i + 1)).drop_last() =~= pull_views(remote@.take(i as int)));
            assert(pull_views(remote@.take(i + 1)).last() == remote@[i as int]@);
        }
        let candidate = remote[i].updated_at.as_str();
        best = match best {
            None => Some(candidate),
            Some(current) => if str_lt(candidate, current) {
                Some(current)
            } else {
                Some(candidate)
            },
        };
        i = i + 1;
    }
    assert(remote@.take(remote@.len() as int) =~= remote@);
    best
}

/// Advance the watermark only after a complete fetch. A truncated fetch keeps
/// the previous mark so the next sync still sees the rest of the window.
pub fn next_watermark(previous: Option<&str>, remote: &[PullRequest], complete: bool) -> (w: String)
    ensures
        w@ == next_watermark_spec(
            match previous {
                Some(p) => Some(p@),
                None => None,
            },
            pull_views(remote@),
            complete,
        ),
{
    if !complete {
        return match previous {
            Some(p) => owned(p),
            None => owned(EPOCH),
        };
    }
    let newest = newest_update(remote);
    match (previous, newest) {
        (Some(previous), Some(newest)) => if str_lt(newest, previous) {
            owned(previous)
        } else {
            owned(newest)
        },
        (None, Some(newest)) => owned(newest),
        (Some(previous), None) => owned(previous),
        (None, None) => owned(EPOCH),
    }
}

/// The events a sync commits: the changeset of `remote` against `local`,
/// followed by a new watermark when it differs from the stored one.
pub open spec fn sync_events_spec(
    stored: Option<Seq<char>>,
    local: Seq<PullView>,
    remote: Seq<PullView>,
    complete: bool,
) -> Seq<EventView> {
    let next = next_watermark_spec(stored, remote, complete);
    let events = changeset_spec(local, remote);
    if stored == Some(next) {
        events
    } else {
        events.push(EventView::Watermark(next))
    }
}

/// What a sync writes for the fetched rows, given the stored watermark and
/// the local rows.
pub fn sync_events(
    stored: Option<&str>,
    local: &[PullRequest],
    remote: &[PullRequest],
    complete: bool,
) -> (events: Vec<Event>)
    ensures
        event_views(events@) == sync_events_spec(
            match stored {
                Some(s) => Some(s@),
                None => None,
            },
            pull_views(local@),
            pull_views(remote@),
            complete,
        ),
{
    let mut events = changeset(local, remote);
    let next = next_watermark(stored, remote, complete);
    let same = match stored {
        Some(s) => owned(s) == next,
        None => false,
    };
    if !same {
        let ghost before = events@;
        events.push(Event::Watermark { at: next });
        assert(event_views(events@) =~= event_views(before).push(events@.last()@));
    }
    events
}

/// After a complete fetch the watermark is never older than the stored one,
/// and no fetched row is newer than it; after a cut-short fetch the stored
/// watermark is kept.
pub proof fn law_watermark_never_moves_back(
    previous: Option<Seq<char>>,
    remote: Seq<PullView>,
    complete: bool,
)
    ensures
        ({
            let w = next_watermark_spec(previous, remote, complete);
            &&& !complete && previous is Some ==> w == previous->0
            &&& previous is Some ==> !seq_lt(w, previous->0)
            &&& complete ==> forall|i: int| 0 <= i < remote.len() ==> !seq_lt(w, #[trigger] remote[i].updated_at)
        }),
{
    let w = next_watermark_spec(previous, remote, complete);
    if previous is Some {
        lemma_lt_irreflexive(previous->0);
        match newest(remote) {
            Some(n) => {
                lemma_lt_total(n, previous->0);
                lemma_lt_irreflexive(n);
            },
            None => {},
        }
    }
    if complete {
        lemma_newest_is_newest(remote);
        assert forall|i: int| 0 <= i < remote.len() implies !seq_lt(w, #[trigger] remote[i].updated_at) by {
            let n = newest(remote)->0;
            if previous is Some && seq_lt(n, previous->0) {
                lemma_lt_total(n, remote[i].updated_at);
                if seq_lt(previous->0, remote[i].updated_at) {
                    lemma_lt_transitive(n, previous->0, remote[i].updated_at);
                }
            }
        }
    }
}

/// `newest` is at least as new as every row.
pub proof fn lemma_newest_is_newest(remote: Seq<PullView>)
    ensures
        remote.len() > 0 ==> newest(remote) is Some,
        forall|i: int| 0 <= i < remote.len() ==> !seq_lt(newest(remote)->0, #[trigger] remote[i].updated_at),
    decreases remote.len(),
{
    if remote.len() > 0 {
        let rest = remote.drop_last();
        lemma_newest_is_newest(rest);
        let last = remote.last().updated_at;
        let n = newest(remote)->0;
        assert forall|i: int| 0 <= i < remote.len() implies !seq_lt(n, #[trigger] remote[i].updated_at) by {
            let x = remote[i].updated_at;
            lemma_lt_irreflexive(x);
            if rest.len() == 0 {
                assert(i == remote.len() - 1);
            } else {
                let m = newest(rest)->0;
                lemma_lt_total(last, m);
                if i == remote.len() - 1 {
                } else {
                    assert(remote[i] == rest[i]);
                    assert(!seq_lt(m, x));
                    if !seq_lt(last, m) {
                        // n == last
                        lemma_lt_total(m, x);
                        if seq_lt(last, x) && seq_lt(x, m) {
                            lemma_lt_transitive(last, x, m);
                        }
                    }
                }
            }
        }
    }
}

/// An unchanged remote row produces no event, and a row missing locally
/// always produces one.
pub proof fn law_unchanged_rows_emit_nothing(local: Seq<PullView>, row: PullView)
    ensures
        last_with_id(local, row.id) == Some(row) ==> changeset_spec(local, seq![row]).len() == 0,
        last_with_id(local, row.id) is None ==> changeset_spec(local, seq![row]).len() == 1,
{
    reveal_with_fuel(changeset_spec, 2);
    assert(seq![row].drop_last() =~= Seq::<PullView>::empty());
}

proof fn lemma_last_with_id_absent(local: Seq<PullView>, id: Seq<char>)
    requires
        forall|j: int| 0 <= j < local.len() ==> (#[trigger] local[j]).id != id,
    ensures
        last_with_id(local, id) is None,
    decreases local.len(),
{
    if local.len() > 0 {
        assert(local.last() == local[local.len() - 1]);
        assert forall|j: int| 0 <= j < local.drop_last().len() implies (#[trigger] local.drop_last()[j]).id != id by {
            assert(local.drop_last()[j] == local[j]);
        }
        lemma_last_with_id_absent(local.drop_last(), id);
    }
}

proof fn lemma_last_with_id_at(local: Seq<PullView>, id: Seq<char>, j: int)
    requires
        0 <= j < local.len(),
        local[j].id == id,
        forall|m: int| j < m < local.len() ==> (#[trigger] local[m]).id != id,
    ensures
        last_with_id(local, id) == Some(local[j]),
    decreases local.len(),
{
    if j < local.len() - 1 {
        assert(local.last() == local[local.len() - 1]);
        assert(local.drop_last()[j] == local[j]);
        assert forall|m: int| j < m < local.drop_last().len() implies (#[trigger] local.drop_last()[m]).id != id by {
            assert(local.drop_last()[m] == local[m]);
        }
        lemma_last_with_id_at(local.drop_last(), id, j);
    }
}

proof fn lemma_last_with_id_is_none(local: Seq<PullView>, id: Seq<char>)
    requires
        last_with_id(local, id) is None,
    ensures
        forall|j: int| 0 <= j < local.len() ==> (#[trigger] local[j]).id != id,
    decreases local.len(),
{
    if local.len() > 0 {
        lemma_last_with_id_is_none(local.drop_last(), id);
        assert forall|j: int| 0 <= j < local.len() implies (#[trigger] local[j]).id != id by {
            if j < local.len() - 1 {
                assert(local.drop_last()[j] == local[j]);
            }
        }
    }
}

proof fn lemma_event_in_changeset(local: Seq<PullView>, remote: Seq<PullView>, i: int, e: EventView)
    requires
        0 <= i < remote.len(),
        classify_spec(last_with_id(local, remote[i].id), remote[i]) == Some(e),
    ensures
        changeset_spec(local, remote).contains(e),
    decreases remote.len(),
{
    let rest = changeset_spec(local, remote.drop_last());
    if i == remote.len() - 1 {
        assert(remote.last() == remote[i]);
        assert(rest.push(e)[rest.len() as int] == e);
    } else {
        assert(remote.drop_last()[i] == remote[i]);
        lemma_event_in_changeset(local, remote.drop_last(), i, e);
        let k = choose|k: int| 0 <= k < rest.len() && rest[k] == e;
        match classify_spec(last_with_id(local, remote.last().id), remote.last()) {
            Some(x) => assert(rest.push(x)[k] == e),
            None => {},
        }
    }
}

proof fn lemma_changeset_source(local: Seq<PullView>, remote: Seq<PullView>, e: EventView) -> (i: int)
    requires
        changeset_spec(local, remote).contains(e),
    ensures
        0 <= i < remote.len(),
        classify_spec(last_with_id(local, remote[i].id), remote[i]) == Some(e),
    decreases remote.len(),
{
    let rest = changeset_spec(local, remote.drop_last());
    let n = remote.len() - 1;
    assert(remote.last() == remote[n]);
    match classify_spec(last_with_id(local, remote.last().id), remote.last()) {
        Some(x) => {
            if x == e {
                n
            } else {
                let k = choose|k: int| 0 <= k < rest.push(x).len() && rest.push(x)[k] == e;
                assert(rest[k] == e);
                let i = lemma_changeset_source(local, remote.drop_last(), e);
                assert(remote.drop_last()[i] == remote[i]);
                i
            }
        },
        None => {
            let i = lemma_changeset_source(local, remote.drop_last(), e);
            assert(remote.drop_last()[i] == remote[i]);
            i
        },
    }
}

/// A remote row with no local row of its id comes in by the event of its
/// state: merged if it arrives merged, closed if it arrives closed, opened
/// otherwise.
pub proof fn law_new_rows_arrive_by_their_state(local: Seq<PullView>, remote: Seq<PullView>, i: int)
    requires
        0 <= i < remote.len(),
        forall|j: int| 0 <= j < local.len() ==> (#[trigger] local[j]).id != remote[i].id,
    ensures
        remote[i].state == "merged"@ ==> changeset_spec(local, remote).contains(EventView::PrMerged(remote[i])),
        remote[i].state == "closed"@ ==> changeset_spec(local, remote).contains(EventView::PrClosed(remote[i])),
        remote[i].state != "merged"@ && remote[i].state != "closed"@ ==> changeset_spec(local, remote).contains(
            EventView::PrOpened(remote[i]),
        ),
{
    reveal_strlit("merged");
    reveal_strlit("closed");
    assert("merged"@[0] != "closed"@[0]);
    lemma_last_with_id_absent(local, remote[i].id);
    lemma_event_in_changeset(local, remote, i, classify_spec(None, remote[i])->0);
}

/// A remote row whose local row (the last one with its id) differs from it
/// comes in as merged when it became merged, as closed when it became
/// closed, and as updated otherwise.
pub proof fn law_changed_rows_arrive_by_their_change(local: Seq<PullView>, remote: Seq<PullView>, i: int, j: int)
    requires
        0 <= i < remote.len(),
        0 <= j < local.len(),
        local[j].id == remote[i].id,
        forall|m: int| j < m < local.len() ==> (#[trigger] local[m]).id != remote[i].id,
        local[j] != remote[i],
    ensures
        remote[i].state == "merged"@ && local[j].state != "merged"@ ==> changeset_spec(local, remote).contains(
            EventView::PrMerged(remote[i]),
        ),
        remote[i].state == "closed"@ && local[j].state != "closed"@ ==> changeset_spec(local, remote).contains(
            EventView::PrClosed(remote[i]),
        ),
        !(remote[i].state == "merged"@ && local[j].state != "merged"@) && !(remote[i].state == "closed"@
            && local[j].state != "closed"@) ==> changeset_spec(local, remote).contains(
            EventView::PrUpdated(remote[i]),
        ),
{
    reveal_strlit("merged");
    reveal_strlit("closed");
    assert("merged"@[0] != "closed"@[0]);
    lemma_last_with_id_at(local, remote[i].id, j);
    lemma_event_in_changeset(local, remote, i, classify_spec(Some(local[j]), remote[i])->0);
}

/// Every opened event is for a fetched row that has no local row of its id
/// and is neither merged nor closed.
pub proof fn law_opened_only_for_new_open_rows(local: Seq<PullView>, remote: Seq<PullView>, v: PullView)
    requires
        changeset_spec(local, remote).contains(EventView::PrOpened(v)),
    ensures
        remote.contains(v),
        v.state != "merged"@,
        v.state != "closed"@,
        forall|j: int| 0 <= j < local.len() ==> (#[trigger] local[j]).id != v.id,
{
    let i = lemma_changeset_source(local, remote, EventView::PrOpened(v));
    assert(remote[i] == v);
    lemma_last_with_id_is_none(local, v.id);
}

} // verus!
