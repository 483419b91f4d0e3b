use std::sync::Mutex;

use angry_hub::github::{DeviceCode, DevicePoll, FakeGithub, Github, GithubError, PullPage, RemotePull};
use angry_hub::session::Tokens;
use angry_hub::pulls::{sync_events, PullMutator, PullRequest, SyncState};
use angry_hub::sync::{fetch_authored, into_pull};

struct PagedGithub {
    pages: Mutex<Vec<PullPage>>,
    queries: Mutex<Vec<String>>,
}

impl Github for PagedGithub {
    fn start_device_flow(&self) -> Result<DeviceCode, GithubError> {
        unreachable!()
    }
    fn poll_device_flow(&self, _: &str) -> Result<DevicePoll, GithubError> {
        unreachable!()
    }
    fn refresh(&self, _: &str) -> Result<Tokens, GithubError> {
        unreachable!()
    }
    fn authored_pulls(
        &self,
        _: &str,
        query: &str,
        _: Option<&str>,
    ) -> Result<PullPage, GithubError> {
        self.queries.lock().unwrap().push(query.into());
        Ok(self.pages.lock().unwrap().remove(0))
    }
}

fn remote(id: &str, state: &str) -> RemotePull {
    RemotePull {
        id: id.into(),
        number: 1,
        title: id.into(),
        state: state.into(),
        url: format!("https://github.com/acme/app/pull/{id}"),
        repository: "acme/app".into(),
        author: "nils".into(),
        updated_at: "2024-01-01T00:00:00Z".into(),
        ci: "none".into(),
        approvals: 0,
        required_approvals: 0,
        has_conflicts: false,
    }
}

fn page(pulls: Vec<RemotePull>, has_next_page: bool) -> PullPage {
    PullPage {
        pulls,
        has_next_page,
        end_cursor: if has_next_page { Some("next".into()) } else { None },
    }
}

#[test]
fn fetch_walks_pages_sequentially_and_stops_at_the_limit() {
    let github = PagedGithub {
        pages: Mutex::new(vec![
            page(vec![remote("1", "open"), remote("2", "draft")], true),
            page(vec![remote("3", "open")], true),
            page(vec![remote("4", "open")], false),
        ]),
        queries: Mutex::new(Vec::new()),
    };

    let fetched = fetch_authored(&github, "token", "author:@me", 3).unwrap();

    assert_eq!(fetched.pulls.len(), 3);
    assert!(!fetched.complete);
    assert_eq!(github.queries.lock().unwrap().len(), 2);
    assert_eq!(github.pages.lock().unwrap().len(), 1);
}

#[test]
fn fetch_reads_every_page_under_the_limit() {
    let github = PagedGithub {
        pages: Mutex::new(vec![
            page(vec![remote("1", "open")], true),
            page(vec![remote("2", "merged")], false),
        ]),
        queries: Mutex::new(Vec::new()),
    };

    let fetched = fetch_authored(&github, "token", "author:@me", 10).unwrap();

    assert_eq!(fetched.pulls.len(), 2);
    assert!(fetched.complete);
    assert_eq!(fetched.pulls[1].state, "merged");
}

/// A store in memory: the rows and the sync state, written event by event.
struct Store {
    rows: Vec<PullRequest>,
    sync: Option<SyncState>,
}

fn apply(store: &mut Store, remote: &[PullRequest], complete: bool) {
    let watermark = store.sync.as_ref().map(|state| state.watermark.clone());
    for event in sync_events(watermark.as_deref(), &store.rows, remote, complete) {
        PullMutator.apply(&mut store.rows, &mut store.sync, event);
    }
}

#[test]
fn apply_writes_opened_and_merged_events() {
    let mut store = Store { rows: Vec::new(), sync: None };

    let open = into_pull(remote("1", "open"));
    apply(&mut store, &[open.clone()], true);
    let mut merged = open.clone();
    merged.state = "merged".into();
    merged.updated_at = "2024-02-01T00:00:00Z".into();
    apply(&mut store, &[merged], true);

    assert_eq!(store.rows.len(), 1);
    assert_eq!(store.rows[0].state, "merged");
    assert_eq!(store.sync.unwrap().watermark, "2024-02-01T00:00:00Z");
}

#[test]
fn a_zero_limit_asks_nothing_and_is_complete() {
    let github = PagedGithub { pages: Mutex::new(vec![]), queries: Mutex::new(vec![]) };
    let fetched = fetch_authored(&github, "token", "author:@me", 0).unwrap();
    assert!(fetched.pulls.is_empty());
    assert!(fetched.complete);
    assert!(github.queries.lock().unwrap().is_empty());
}

#[test]
fn the_stand_in_github_answers_with_its_fixed_values() {
    let tokens = Tokens { access_token: "a".into(), refresh_token: Some("r".into()) };
    let github = FakeGithub::with_refresh(tokens.clone());
    assert_eq!(github.start_device_flow().unwrap().user_code, "ABCD-1234");
    assert_eq!(github.poll_device_flow("device").unwrap(), DevicePoll::Pending);
    assert_eq!(github.refresh("r").unwrap(), tokens);
    let page = github.authored_pulls("t", "q", None).unwrap();
    assert!(page.pulls.is_empty() && !page.has_next_page && page.end_cursor.is_none());
    let fetched = fetch_authored(&github, "t", "q", 10).unwrap();
    assert!(fetched.pulls.is_empty() && fetched.complete);
}
