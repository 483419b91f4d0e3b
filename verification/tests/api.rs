use angry_hub::code_host::github::api::{
    activity_feed, after_answer, after_refresh, already_refreshed, bearer_step, close_result,
    device_code, graphql_body, graphql_error, invalid_response, is_expired_auth, login_poll,
    open_pull_requests, parse_method, permission_request, refreshed_tokens, required_approvals,
    restricted_from_answer, sort_newest_first, split_repo, user_body, ActivityPull,
    ActivityPullConnection, ActivityResponse, ActivityReview, ActivityReviewConnection,
    ActivityViewer, Actor, BaseRef, BearerStep, BranchProtectionRule, CloseResponse,
    CommentConnection, CommentNode, DeviceCodeResponse, LoginPoll, LoginPollResponse, Method,
    OpenPullNode, OpenPullsResponse, PullRequestRuleParameters, RefUpdateRule, RefreshResponse,
    Repository, RepositoryRule, ReviewConnection, ReviewNode, RuleConnection, SendStep,
    StatusCheckRollup, TimelineConnection, TimelineNode, FEED_LIMIT,
};
use angry_hub::github::GraphqlError;
use angry_hub::models::{ActivityItem, ActivityKind, CiStatus, PrStatus};

#[test]
fn a_401_or_a_telling_body_means_the_session_is_over() {
    assert!(is_expired_auth(401, ""));
    assert!(is_expired_auth(200, "{\"message\":\"Bad credentials\"}"));
    assert!(is_expired_auth(403, "This API Session Has Expired"));
    assert!(is_expired_auth(400, "token has been REVOKED"));
    assert!(is_expired_auth(
        403,
        "{\"type\":\"FORBIDDEN\",\"message\":\"Resource requires authentication\"}"
    ));
    assert!(!is_expired_auth(403, "{\"type\":\"FORBIDDEN\"}"));
    assert!(!is_expired_auth(200, "{\"data\":{}}"));
}

#[test]
fn failed_statuses_are_reported_with_the_body() {
    assert_eq!(graphql_body(200, "ok".into()).unwrap(), "ok");
    assert_eq!(
        graphql_body(502, "bad gateway".into()).unwrap_err().message,
        "graphql request failed (502): bad gateway"
    );
    assert_eq!(
        user_body(404, "nope".into()).unwrap_err().message,
        "failed to load user (404): nope"
    );
    assert_eq!(user_body(299, "x".into()).unwrap(), "x");
    assert_eq!(invalid_response("eof").message, "invalid response: eof");
}

#[test]
fn graphql_errors_win_then_missing_data() {
    let errors = Some(vec![
        GraphqlError { message: "one".into() },
        GraphqlError { message: "two".into() },
    ]);
    assert_eq!(graphql_error(&errors, true, None).unwrap().message, "one; two");
    assert_eq!(graphql_error(&Some(vec![]), true, None).unwrap().message, "");
    assert_eq!(graphql_error(&None, false, Some("Bad".into())).unwrap().message, "Bad");
    assert_eq!(graphql_error(&None, false, None).unwrap().message, "empty response");
    assert!(graphql_error(&None, true, Some("ignored".into())).is_none());
}

#[test]
fn only_get_and_post_are_sent() {
    assert_eq!(parse_method("GET").unwrap(), Method::Get);
    assert_eq!(parse_method("POST").unwrap(), Method::Post);
    assert_eq!(parse_method("PUT").unwrap_err().message, "unsupported HTTP method: PUT");
}

#[test]
fn bearer_refreshes_once_without_a_token() {
    assert!(matches!(bearer_step(Some("t".into()), None), BearerStep::Use(t) if t == "t"));
    assert!(matches!(bearer_step(None, None), BearerStep::Refresh));
    match bearer_step(None, Some(true)) {
        BearerStep::Fail(e) => assert_eq!(e.message, "not logged in"),
        _ => panic!("expected a failure"),
    }
    assert!(matches!(bearer_step(Some("new".into()), Some(true)), BearerStep::Use(_)));
}

#[test]
fn a_refused_token_is_refreshed_once() {
    assert_eq!(after_answer(false, 200, "{}"), SendStep::Done);
    assert_eq!(after_answer(false, 401, ""), SendStep::Refresh);
    assert_eq!(after_answer(true, 401, ""), SendStep::EndSession);
    assert_eq!(after_refresh(true), SendStep::Done);
    assert_eq!(after_refresh(false), SendStep::EndSession);
}

#[test]
fn another_refresh_may_already_have_replaced_the_token() {
    assert!(already_refreshed(Some("new"), "old"));
    assert!(!already_refreshed(Some("old"), "old"));
    assert!(!already_refreshed(Some("new"), ""));
    assert!(!already_refreshed(None, "old"));
}

#[test]
fn refreshed_tokens_keep_the_old_refresh_token_when_none_comes_back() {
    let r = refreshed_tokens(
        RefreshResponse { access_token: Some("a2".into()), refresh_token: None },
        "r1".into(),
    );
    assert_eq!(r, Some(("a2".to_string(), Some("r1".to_string()))));
    let r = refreshed_tokens(
        RefreshResponse { access_token: Some("a2".into()), refresh_token: Some("".into()) },
        "r1".into(),
    );
    assert_eq!(r, Some(("a2".to_string(), Some("r1".to_string()))));
    let r = refreshed_tokens(
        RefreshResponse { access_token: Some("a2".into()), refresh_token: Some("r2".into()) },
        "r1".into(),
    );
    assert_eq!(r, Some(("a2".to_string(), Some("r2".to_string()))));
    let r = refreshed_tokens(
        RefreshResponse { access_token: Some("".into()), refresh_token: Some("r2".into()) },
        "r1".into(),
    );
    assert_eq!(r, None);
}

#[test]
fn the_poll_interval_is_at_least_five_seconds() {
    let code = device_code(DeviceCodeResponse {
        device_code: "dc".into(),
        user_code: "ABCD-1234".into(),
        verification_uri: "https://github.com/login/device".into(),
        interval: Some(2),
    });
    assert_eq!(code.poll_interval_secs, 5);
    assert_eq!(code.user_code, "ABCD-1234");
    let code = device_code(DeviceCodeResponse {
        device_code: "dc".into(),
        user_code: "u".into(),
        verification_uri: "v".into(),
        interval: Some(9),
    });
    assert_eq!(code.poll_interval_secs, 9);
    let code = device_code(DeviceCodeResponse {
        device_code: "dc".into(),
        user_code: "u".into(),
        verification_uri: "v".into(),
        interval: None,
    });
    assert_eq!(code.poll_interval_secs, 5);
}

fn poll(token: Option<&str>, error: Option<&str>, description: Option<&str>) -> LoginPoll {
    login_poll(LoginPollResponse {
        access_token: token.map(String::from),
        refresh_token: Some("r".into()),
        error: error.map(String::from),
        error_description: description.map(String::from),
    })
}

fn failure(p: LoginPoll) -> String {
    match p {
        LoginPoll::Fail(e) => e.message,
        _ => panic!("expected a failure"),
    }
}

#[test]
fn login_polls_wait_save_or_fail() {
    assert!(matches!(poll(Some("t"), None, None), LoginPoll::Save(t, Some(r)) if t == "t" && r == "r"));
    assert!(matches!(poll(None, Some("authorization_pending"), None), LoginPoll::Wait));
    assert!(matches!(poll(None, Some("slow_down"), None), LoginPoll::Wait));
    assert_eq!(failure(poll(None, Some("expired_token"), Some("x"))), "device code expired");
    assert_eq!(failure(poll(None, Some("access_denied"), None)), "user denied access");
    assert_eq!(failure(poll(None, Some("weird"), Some("Something odd"))), "Something odd");
    assert_eq!(failure(poll(None, Some("weird"), None)), "weird");
    assert_eq!(failure(poll(None, None, None)), "unknown error");
}

fn node(id: &str, number: u32) -> OpenPullNode {
    OpenPullNode {
        id: id.into(),
        title: format!("title {id}"),
        number,
        url: format!("https://github.com/acme/app/pull/{number}"),
        is_draft: false,
        updated_at: "2024-01-01T00:00:00Z".into(),
        repository: Repository { name_with_owner: "acme/app".into() },
        status_check_rollup: None,
        latest_opinionated_reviews: None,
        review_decision: None,
        mergeable: None,
        head_ref_name: None,
        base_ref: None,
    }
}

#[test]
fn open_pull_requests_map_every_field() {
    let mut a = node("a", 1);
    a.is_draft = true;
    a.status_check_rollup = Some(StatusCheckRollup { state: Some("ERROR".into()) });
    a.latest_opinionated_reviews = Some(ReviewConnection {
        nodes: vec![
            ReviewNode { state: "APPROVED".into() },
            ReviewNode { state: "COMMENTED".into() },
            ReviewNode { state: "APPROVED".into() },
        ],
    });
    a.mergeable = Some("CONFLICTING".into());
    a.head_ref_name = Some("feature".into());
    let mut b = node("b", 2);
    b.status_check_rollup = Some(StatusCheckRollup { state: Some("EXPECTED".into()) });
    let resp = OpenPullsResponse { nodes: Some(vec![a, b]), message: None, errors: None };

    let prs = open_pull_requests(resp).unwrap();

    assert_eq!(prs.len(), 2);
    assert_eq!(prs[0].id, "a");
    assert_eq!(prs[0].status, PrStatus::Draft);
    assert_eq!(prs[0].ci, CiStatus::Failure);
    assert_eq!(prs[0].approvals, 2);
    assert!(prs[0].has_conflicts);
    assert_eq!(prs[0].branch, "feature");
    assert_eq!(prs[0].repo, "acme/app");
    assert_eq!(prs[1].status, PrStatus::Open);
    assert_eq!(prs[1].ci, CiStatus::Pending);
    assert_eq!(prs[1].branch, "");
    assert!(!prs[1].has_conflicts);
    assert_eq!(prs[1].required_approvals, 0);
}

#[test]
fn open_pull_requests_report_errors() {
    let resp = OpenPullsResponse {
        nodes: Some(vec![node("a", 1)]),
        message: None,
        errors: Some(vec![GraphqlError { message: "rate limited".into() }]),
    };
    assert_eq!(open_pull_requests(resp).unwrap_err().message, "rate limited");
    let resp = OpenPullsResponse { nodes: None, message: Some("Bad credentials".into()), errors: None };
    assert_eq!(open_pull_requests(resp).unwrap_err().message, "Bad credentials");
}

#[test]
fn required_approvals_take_the_strictest_rule() {
    let base = Some(BaseRef {
        branch_protection_rule: Some(BranchProtectionRule {
            requires_approving_reviews: true,
            required_approving_review_count: Some(1),
        }),
        ref_update_rule: Some(RefUpdateRule { required_approving_review_count: Some(2) }),
        rules: Some(RuleConnection {
            nodes: vec![
                RepositoryRule { parameters: None },
                RepositoryRule {
                    parameters: Some(PullRequestRuleParameters { required_approving_review_count: Some(3) }),
                },
            ],
        }),
    });
    assert_eq!(required_approvals(&base, &None), 3);
    let unprotected = Some(BaseRef {
        branch_protection_rule: Some(BranchProtectionRule {
            requires_approving_reviews: false,
            required_approving_review_count: Some(4),
        }),
        ref_update_rule: None,
        rules: None,
    });
    assert_eq!(required_approvals(&unprotected, &None), 0);
    assert_eq!(required_approvals(&unprotected, &Some("REVIEW_REQUIRED".into())), 1);
    assert_eq!(required_approvals(&None, &Some("APPROVED".into())), 0);
}

fn actor(login: &str, name: Option<&str>) -> Actor {
    Actor {
        login: login.into(),
        avatar_url: format!("https://avatars/{login}"),
        name: name.map(String::from),
    }
}

fn comment(login: &str, at: &str) -> CommentNode {
    CommentNode {
        author: Some(actor(login, None)),
        created_at: at.into(),
        url: format!("https://github.com/c/{at}"),
    }
}

fn pull(number: u32) -> ActivityPull {
    ActivityPull {
        title: format!("PR {number}"),
        number,
        url: format!("https://github.com/acme/app/pull/{number}"),
        merged_at: None,
        merged_by: None,
        repository: Repository { name_with_owner: "acme/app".into() },
        timeline_items: TimelineConnection { nodes: vec![] },
        comments: CommentConnection { nodes: vec![] },
        reviews: ActivityReviewConnection { nodes: vec![] },
    }
}

fn feed(prs: Vec<ActivityPull>) -> Vec<ActivityItem> {
    activity_feed(ActivityResponse {
        viewer: Some(ActivityViewer {
            login: "me".into(),
            pull_requests: ActivityPullConnection { nodes: prs },
        }),
        message: None,
        errors: None,
    })
    .unwrap()
}

#[test]
fn the_feed_runs_newest_first_and_skips_the_users_own_comments() {
    let mut p = pull(7);
    p.merged_at = Some("2024-03-01T00:00:00Z".into());
    p.merged_by = Some(actor("ann", Some("  Ann Lee  ")));
    p.timeline_items = TimelineConnection {
        nodes: vec![
            TimelineNode {
                typename: "ClosedEvent".into(),
                created_at: Some("2024-03-01T00:00:00Z".into()),
                actor: Some(actor("ann", None)),
            },
            TimelineNode {
                typename: "ReopenedEvent".into(),
                created_at: Some("2024-02-01T00:00:00Z".into()),
                actor: None,
            },
            TimelineNode { typename: "LabeledEvent".into(), created_at: Some("2024-02-02T00:00:00Z".into()), actor: None },
        ],
    };
    p.comments = CommentConnection {
        nodes: vec![comment("me", "2024-02-10T00:00:00Z"), comment("bob", "2024-02-11T00:00:00Z")],
    };
    p.reviews = ActivityReviewConnection {
        nodes: vec![ActivityReview {
            author: Some(actor("cat", Some("   "))),
            state: "CHANGES_REQUESTED".into(),
            submitted_at: Some("2024-02-20T00:00:00Z".into()),
            url: "https://github.com/r/1".into(),
            comments: CommentConnection { nodes: vec![comment("dan", "2024-02-21T00:00:00Z")] },
        }],
    };

    let items = feed(vec![p]);

    let kinds: Vec<ActivityKind> = items.iter().map(|i| i.kind).collect();
    assert_eq!(
        kinds,
        vec![
            ActivityKind::Merged,
            ActivityKind::Comment,
            ActivityKind::ChangesRequested,
            ActivityKind::Comment,
            ActivityKind::Reopened,
        ]
    );
    assert_eq!(items[0].actor, "Ann Lee");
    assert_eq!(items[0].avatar_url.as_deref(), Some("https://avatars/ann"));
    assert_eq!(items[1].actor, "dan");
    assert_eq!(items[2].actor, "cat");
    assert_eq!(items[3].actor, "bob");
    assert_eq!(items[4].actor, "someone");
    assert_eq!(items[4].avatar_url, None);
    assert_eq!(items[0].number, 7);
    assert_eq!(items[0].pr_title, "PR 7");
}

#[test]
fn the_feed_keeps_the_newest_eighty() {
    let mut p = pull(1);
    p.comments = CommentConnection {
        nodes: (0..100).map(|i| comment("bob", &format!("2024-01-01T00:{:02}:{:02}Z", i / 60, i % 60))).collect(),
    };
    let items = feed(vec![p]);
    assert_eq!(items.len(), FEED_LIMIT);
    assert_eq!(items[0].occurred_at, "2024-01-01T00:01:39Z");
    assert_eq!(items[79].occurred_at, "2024-01-01T00:00:20Z");
}

#[test]
fn the_feed_reports_errors_and_missing_data() {
    let r = activity_feed(ActivityResponse { viewer: None, message: None, errors: None });
    assert_eq!(r.unwrap_err().message, "empty response");
}

#[test]
fn simultaneous_entries_keep_their_order() {
    let item = |actor: &str, at: &str| ActivityItem {
        kind: ActivityKind::Comment,
        actor: actor.into(),
        avatar_url: None,
        pr_title: "t".into(),
        repo: "r".into(),
        number: 1,
        url: "u".into(),
        occurred_at: at.into(),
    };
    let sorted = sort_newest_first(vec![item("a", "1"), item("b", "2"), item("c", "1"), item("d", "3")]);
    let actors: Vec<&str> = sorted.iter().map(|i| i.actor.as_str()).collect();
    assert_eq!(actors, vec!["d", "b", "a", "c"]);
}

#[test]
fn closing_answers() {
    assert!(close_result(CloseResponse { has_data: true, message: None, errors: None }).is_ok());
    assert_eq!(
        close_result(CloseResponse { has_data: false, message: None, errors: None }).unwrap_err().message,
        "empty response"
    );
    assert_eq!(
        close_result(CloseResponse {
            has_data: true,
            message: None,
            errors: Some(vec![GraphqlError { message: "nope".into() }]),
        })
        .unwrap_err()
        .message,
        "nope"
    );
}

#[test]
fn repository_names_split_at_the_first_slash() {
    assert_eq!(split_repo("acme/app"), Some(("acme".to_string(), "app".to_string())));
    assert_eq!(split_repo("acme/app/x"), Some(("acme".to_string(), "app/x".to_string())));
    assert_eq!(split_repo("noslash"), None);
}

#[test]
fn the_permission_request_is_skipped_for_ones_own_repositories() {
    assert_eq!(permission_request("Nils", "app", "nils"), None);
    assert_eq!(
        permission_request("acme", "app", "nils").as_deref(),
        Some("https://api.github.com/repos/acme/app/collaborators/nils/permission")
    );
}

#[test]
fn restrictions_show_in_the_body_or_the_403_message() {
    let phrase = "OAuth App access restrictions";
    assert!(restricted_from_answer(200, phrase, None));
    assert!(restricted_from_answer(403, "{}", Some(Some(phrase.into()))));
    assert!(!restricted_from_answer(404, "{}", Some(Some(phrase.into()))));
    assert!(!restricted_from_answer(403, "{}", Some(None)));
    assert!(!restricted_from_answer(403, "{}", None));
}
