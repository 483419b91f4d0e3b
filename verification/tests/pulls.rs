use angry_hub::pulls::{changeset, next_watermark, search_query, Event, PullMutator, PullRequest, StoreWrite, SyncState};

fn pr(id: &str, state: &str, updated_at: &str) -> PullRequest {
    PullRequest {
        id: id.into(),
        number: 1,
        title: "title".into(),
        state: state.into(),
        url: "https://github.com/acme/app/pull/1".into(),
        repository: "acme/app".into(),
        author: "nils".into(),
        updated_at: updated_at.into(),
        ci: "none".into(),
        approvals: 0,
        required_approvals: 0,
        has_conflicts: false,
    }
}

#[test]
fn initial_query_is_open_pulls_sorted_by_update() {
    assert_eq!(search_query(None), "author:@me is:pr sort:updated-desc");
}

#[test]
fn later_query_filters_on_the_watermark() {
    assert_eq!(
        search_query(Some("2024-01-02T00:00:00Z")),
        "author:@me is:pr updated:>=2024-01-02T00:00:00Z sort:updated-desc"
    );
}

#[test]
fn changeset_emits_opened_updated_closed_and_merged() {
    let local = vec![
        pr("open", "open", "2024-01-01T00:00:00Z"),
        pr("closing", "open", "2024-01-01T00:00:00Z"),
        pr("merging", "open", "2024-01-01T00:00:00Z"),
    ];
    let mut updated = pr("open", "open", "2024-01-02T00:00:00Z");
    updated.title = "renamed".into();
    let remote = vec![
        updated,
        pr("closing", "closed", "2024-01-02T00:00:00Z"),
        pr("merging", "merged", "2024-01-02T00:00:00Z"),
        pr("fresh", "open", "2024-01-02T00:00:00Z"),
    ];

    let events = changeset(&local, &remote);

    assert!(matches!(events[0], Event::PrUpdated(_)));
    assert!(matches!(events[1], Event::PrClosed(_)));
    assert!(matches!(events[2], Event::PrMerged(_)));
    assert!(matches!(events[3], Event::PrOpened(_)));
}

#[test]
fn unchanged_rows_emit_nothing() {
    let row = pr("same", "open", "2024-01-01T00:00:00Z");
    assert!(changeset(&[row.clone()], &[row]).is_empty());
}

#[test]
fn watermark_stays_put_when_the_fetch_is_truncated() {
    let remote = vec![pr("a", "open", "2024-06-01T00:00:00Z")];
    assert_eq!(
        next_watermark(Some("2024-01-01T00:00:00Z"), &remote, false),
        "2024-01-01T00:00:00Z"
    );
}

#[test]
fn watermark_moves_to_the_newest_complete_update() {
    let remote = vec![
        pr("a", "open", "2024-06-01T00:00:00Z"),
        pr("b", "merged", "2024-05-01T00:00:00Z"),
    ];
    assert_eq!(
        next_watermark(Some("2024-01-01T00:00:00Z"), &remote, true),
        "2024-06-01T00:00:00Z"
    );
}

#[test]
fn watermark_never_moves_back() {
    let remote = vec![pr("a", "open", "2023-06-01T00:00:00Z")];
    assert_eq!(
        next_watermark(Some("2024-01-01T00:00:00Z"), &remote, true),
        "2024-01-01T00:00:00Z"
    );
}

#[test]
fn the_mutator_upserts_rows_and_replaces_the_watermark() {
    let mut rows = Vec::new();
    let mut sync: Option<SyncState> = None;
    let open = pr("1", "open", "2024-01-01T00:00:00Z");
    PullMutator.apply(&mut rows, &mut sync, Event::PrOpened(open.clone()));
    let mut merged = open.clone();
    merged.state = "merged".into();
    merged.updated_at = "2024-02-01T00:00:00Z".into();
    PullMutator.apply(&mut rows, &mut sync, Event::PrMerged(merged));
    PullMutator.apply(&mut rows, &mut sync, Event::Watermark { at: "2024-02-01T00:00:00Z".into() });

    assert_eq!(rows.len(), 1);
    assert_eq!(rows[0].state, "merged");
    let mark = sync.unwrap();
    assert_eq!(mark.id, "github");
    assert_eq!(mark.watermark, "2024-02-01T00:00:00Z");
}

#[test]
fn a_store_of_tables_gets_one_write_per_event() {
    let open = pr("7", "open", "2024-01-01T00:00:00Z");
    assert_eq!(PullMutator.write(&Event::PrOpened(open.clone())), StoreWrite::ReplaceRow(open));
    assert_eq!(
        PullMutator.write(&Event::Watermark { at: "2024-03-01T00:00:00Z".into() }),
        StoreWrite::ReplaceSyncState(SyncState { id: "github".into(), watermark: "2024-03-01T00:00:00Z".into() })
    );
}
