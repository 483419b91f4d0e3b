//! GitHub's answers, decoded here from their JSON text into the library's
//! records (as the app's client decodes them) and read by the library.

use angry_hub::github::{
    device_code_from, poll_result, pull_page, refresh_result, token_response, AuthorNode, DeviceCode,
    DeviceCodeResponse, DevicePoll, GraphqlBody, GraphqlData, PageInfo, PullNode, RepositoryNode, SearchData,
    TokenBody,
};
use angry_hub::session::Tokens;
use serde_json::Value;

fn json(text: &str) -> Value {
    serde_json::from_str(text).unwrap()
}

fn string(v: &Value, key: &str) -> Option<String> {
    v.get(key).and_then(Value::as_str).map(String::from)
}

fn token_body(text: &str) -> TokenBody {
    let v = json(text);
    TokenBody {
        access_token: string(&v, "access_token"),
        refresh_token: string(&v, "refresh_token"),
        error: string(&v, "error"),
        error_description: string(&v, "error_description"),
    }
}

fn pull_node(v: &Value) -> PullNode {
    PullNode {
        id: string(v, "id").unwrap(),
        number: v["number"].as_i64().unwrap(),
        title: string(v, "title").unwrap(),
        state: string(v, "state").unwrap(),
        is_draft: v["isDraft"].as_bool().unwrap(),
        url: string(v, "url").unwrap(),
        updated_at: string(v, "updatedAt").unwrap(),
        author: v.get("author").map(|a| AuthorNode { login: string(a, "login").unwrap() }),
        repository: v.get("repository").map(|r| RepositoryNode { name_with_owner: string(r, "nameWithOwner").unwrap() }),
        mergeable: string(v, "mergeable"),
        review_decision: string(v, "reviewDecision"),
        status_check_rollup: None,
        latest_opinionated_reviews: None,
        base_ref: None,
    }
}

fn graphql_body(text: &str) -> GraphqlBody {
    let v = json(text);
    let search = &v["data"]["search"];
    GraphqlBody {
        data: Some(GraphqlData {
            search: Some(SearchData {
                page_info: PageInfo {
                    has_next_page: search["pageInfo"]["hasNextPage"].as_bool().unwrap(),
                    end_cursor: string(&search["pageInfo"], "endCursor"),
                },
                nodes: search["nodes"].as_array().unwrap().iter().map(|n| Some(pull_node(n))).collect(),
            }),
        }),
        errors: None,
    }
}

#[test]
fn start_device_flow_parses_the_device_code() {
    let v = json(
        r#"{"device_code":"device","user_code":"ABCD-1234","verification_uri":"https://github.com/login/device","interval":5}"#,
    );
    let code = device_code_from(DeviceCodeResponse {
        device_code: string(&v, "device_code").unwrap(),
        user_code: string(&v, "user_code").unwrap(),
        verification_uri: string(&v, "verification_uri").unwrap(),
        interval: v["interval"].as_u64(),
    });
    assert_eq!(
        code,
        DeviceCode {
            device_code: "device".into(),
            user_code: "ABCD-1234".into(),
            verification_uri: "https://github.com/login/device".into(),
            interval_secs: 5,
        }
    );
}

#[test]
fn poll_parses_an_access_token_and_refresh_token() {
    let body = token_body(r#"{"access_token":"access","refresh_token":"refresh","token_type":"bearer"}"#);
    let poll = poll_result(token_response(body)).unwrap();
    assert_eq!(
        poll,
        DevicePoll::Approved(Tokens { access_token: "access".into(), refresh_token: Some("refresh".into()) })
    );
}

#[test]
fn poll_parses_pending_slow_down_denied_and_expired() {
    let cases = [
        ("authorization_pending", DevicePoll::Pending),
        ("slow_down", DevicePoll::SlowDown),
        ("access_denied", DevicePoll::Denied),
        ("expired_token", DevicePoll::Expired),
    ];
    for (error, expected) in cases {
        let body = token_body(&format!(r#"{{"error":"{error}"}}"#));
        assert_eq!(poll_result(token_response(body)).unwrap(), expected);
    }
}

#[test]
fn refresh_parses_the_rotated_tokens() {
    let body = token_body(r#"{"access_token":"access-2","refresh_token":"refresh-2","token_type":"bearer"}"#);
    let tokens = refresh_result(token_response(body)).unwrap();
    assert_eq!(tokens, Tokens { access_token: "access-2".into(), refresh_token: Some("refresh-2".into()) });
}

#[test]
fn authored_pulls_maps_open_draft_closed_and_merged() {
    let body = graphql_body(
        r#"{"data":{"search":{"pageInfo":{"hasNextPage":true,"endCursor":"cursor"},"nodes":[
            {"id":"1","number":1,"title":"Open","state":"OPEN","isDraft":false,"url":"https://github.com/acme/app/pull/1","updatedAt":"2024-01-01T00:00:00Z","author":{"login":"nils"},"repository":{"nameWithOwner":"acme/app"}},
            {"id":"2","number":2,"title":"Draft","state":"OPEN","isDraft":true,"url":"https://github.com/acme/app/pull/2","updatedAt":"2024-01-02T00:00:00Z","author":{"login":"nils"},"repository":{"nameWithOwner":"acme/app"}},
            {"id":"3","number":3,"title":"Closed","state":"CLOSED","isDraft":false,"url":"https://github.com/acme/app/pull/3","updatedAt":"2024-01-03T00:00:00Z","author":{"login":"nils"},"repository":{"nameWithOwner":"acme/app"}},
            {"id":"4","number":4,"title":"Merged","state":"MERGED","isDraft":false,"url":"https://github.com/acme/app/pull/4","updatedAt":"2024-01-04T00:00:00Z","author":{"login":"nils"},"repository":{"nameWithOwner":"acme/app"}}
        ]}}}"#,
    );
    let page = pull_page(body).unwrap();
    assert!(page.has_next_page);
    assert_eq!(page.end_cursor.as_deref(), Some("cursor"));
    assert_eq!(page.pulls.iter().map(|pr| pr.state.as_str()).collect::<Vec<_>>(), vec!["open", "draft", "closed", "merged"]);
}

#[test]
fn an_unknown_pull_request_state_is_an_error() {
    let body = graphql_body(
        r#"{"data":{"search":{"pageInfo":{"hasNextPage":false,"endCursor":""},"nodes":[
            {"id":"1","number":1,"title":"Odd","state":"LOCKED","isDraft":false,"url":"u","updatedAt":"t"}
        ]}}}"#,
    );
    assert_eq!(pull_page(body).unwrap_err().message(), "unknown pull request state: LOCKED");
}

#[test]
fn a_token_error_without_a_known_code_carries_its_description() {
    let body = token_body(r#"{"error":"incorrect_client_credentials","error_description":"The client_id is wrong."}"#);
    assert_eq!(poll_result(token_response(body)).unwrap_err().message(), "The client_id is wrong.");
    let empty = token_body(r#"{"access_token":""}"#);
    assert_eq!(refresh_result(token_response(empty)).unwrap_err().message(), "token response had no access token");
}
