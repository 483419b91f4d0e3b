//! What GitHub's answers mean: when a session is over, how the device login
//! proceeds, how tokens are refreshed, and how the GraphQL answers become the
//! app's pull requests and activity feed.
//!
//! The app sends the requests and decodes the JSON into the plain records of
//! this module; every decision on their contents is made here.

use vstd::prelude::*;

use crate::code_host::{DataSourceError, oauth_restricted, is_oauth_app_restricted_message};
use crate::github::{GraphqlError, error_messages, join, join_messages};
use crate::model::DeviceCode;
use crate::models::{ActivityItem, ActivityKind, ActivityView, CiStatus, PrStatus, PullRequest, views};
use crate::session::opt_view;
use crate::text::{
    chars_contain, chars_lt, chars_of, lemma_lt_irreflexive, lemma_lt_transitive, seq_lt, concat3, decimal, decimal_string, eq_ignore_ascii_case, find_char,
    lower_chars, lower_seq, owned, seq_contains, slice_chars, string_from_chars, trim, trimmed,
};

verus! {

broadcast use vstd::string::group_string_axioms;

// ---------------------------------------------------------------------------
// Expired sessions
// ---------------------------------------------------------------------------

/// The phrases, in lower case, by which GitHub says a token no longer works.
pub open spec fn expired_phrase(lower: Seq<char>) -> bool {
    ||| seq_contains(lower, "bad credentials"@)
    ||| seq_contains(lower, "session ended"@)
    ||| seq_contains(lower, "session has expired"@)
    ||| seq_contains(lower, "session has been invalidated"@)
    ||| seq_contains(lower, "this api session has expired"@)
    ||| seq_contains(lower, "token expired"@)
    ||| seq_contains(lower, "token has expired"@)
    ||| seq_contains(lower, "token has been revoked"@)
    ||| (seq_contains(lower, "\"type\":\"forbidden\""@) && seq_contains(
        lower,
        "requires authentication"@,
    ))
}

/// Whether an answer says the session's token no longer works: a 401, or one
/// of the phrases in the body, compared without regard to ASCII case.
pub open spec fn expired_auth(status: u16, body: Seq<char>) -> bool {
    status == 401 || expired_phrase(lower_seq(body))
}

fn has_phrase(lower: &Vec<char>, phrase: &str) -> (b: bool)
    ensures
        b == seq_contains(lower@, phrase@),
{
    let p = chars_of(phrase);
    chars_contain(lower, &p)
}

pub fn is_expired_auth(status: u16, body: &str) -> (b: bool)
    ensures
        b == expired_auth(status, body@),
{
    if status == 401 {
        return true;
    }
    let lower = lower_chars(body);
    has_phrase(&lower, "bad credentials") || has_phrase(&lower, "session ended") || has_phrase(
        &lower,
        "session has expired",
    ) || has_phrase(&lower, "session has been invalidated") || has_phrase(
        &lower,
        "this api session has expired",
    ) || has_phrase(&lower, "token expired") || has_phrase(&lower, "token has expired")
        || has_phrase(&lower, "token has been revoked") || (has_phrase(
        &lower,
        "\"type\":\"forbidden\"",
    ) && has_phrase(&lower, "requires authentication"))
}

// ---------------------------------------------------------------------------
// Failure messages
// ---------------------------------------------------------------------------

/// `"{prefix} ({status}): {body}"`.
pub open spec fn failure_text(prefix: Seq<char>, status: Seq<char>, body: Seq<char>) -> Seq<char> {
    prefix + " ("@ + status + "): "@ + body
}

/// The failure for an answer whose status is not a success.
pub fn failure_message(prefix: &str, status: &str, body: &str) -> (e: DataSourceError)
    ensures
        e.message_view() == failure_text(prefix@, status@, body@),
        !e.ended(),
{
    let mut m = concat3(prefix, " (", status);
    m.append("): ");
    m.append(body);
    DataSourceError::from_message(m)
}

/// The body of an answer whose status is in `200..300`; otherwise the
/// failure `"{prefix} ({status}): {body}"`.
pub fn require_success(prefix: &str, status: u16, body: String) -> (r: Result<String, DataSourceError>)
    ensures
        200 <= status < 300 ==> r == Ok::<String, DataSourceError>(body),
        !(200 <= status < 300) ==> r is Err && r->Err_0.message_view() == failure_text(
            prefix@,
            decimal(status as nat),
            body@,
        ) && !r->Err_0.ended(),
{
    if 200 <= status && status < 300 {
        Ok(body)
    } else {
        let s = decimal_string(status as u64);
        Err(failure_message(prefix, s.as_str(), body.as_str()))
    }
}

/// `graphql`'s check of the status of a GraphQL answer.
pub fn graphql_body(status: u16, body: String) -> (r: Result<String, DataSourceError>)
    ensures
        200 <= status < 300 ==> r == Ok::<String, DataSourceError>(body),
        !(200 <= status < 300) ==> r is Err && r->Err_0.message_view() == failure_text(
            "graphql request failed"@,
            decimal(status as nat),
            body@,
        ),
{
    require_success("graphql request failed", status, body)
}

/// `viewer_login`'s check of the status of the answer about the user.
pub fn user_body(status: u16, body: String) -> (r: Result<String, DataSourceError>)
    ensures
        200 <= status < 300 ==> r == Ok::<String, DataSourceError>(body),
        !(200 <= status < 300) ==> r is Err && r->Err_0.message_view() == failure_text(
            "failed to load user"@,
            decimal(status as nat),
            body@,
        ),
{
    require_success("failed to load user", status, body)
}

/// The failure for an answer that could not be decoded.
pub fn invalid_response(detail: &str) -> (e: DataSourceError)
    ensures
        e.message_view() == "invalid response: "@ + detail@,
        !e.ended(),
{
    proof {
        reveal_strlit("");
    }
    DataSourceError::from_message(concat3("invalid response: ", detail, ""))
}

/// How a GraphQL answer fails: its errors, joined by `"; "`, when it carries
/// any list of them; else, without data, its message or `"empty response"`.
pub open spec fn graphql_failure(errors: Option<Seq<GraphqlError>>, has_data: bool, message: Option<
    Seq<char>,
>) -> Option<Seq<char>> {
    match errors {
        Some(es) => Some(join(error_messages(es), "; "@)),
        None => if has_data {
            None
        } else {
            match message {
                Some(m) => Some(m),
                None => Some("empty response"@),
            }
        },
    }
}

pub open spec fn opt_seq<T>(v: Option<Vec<T>>) -> Option<Seq<T>> {
    match v {
        Some(x) => Some(x@),
        None => None,
    }
}

/// `graphql_failure`, computed.
pub fn graphql_error(errors: &Option<Vec<GraphqlError>>, has_data: bool, message: Option<String>) -> (r:
    Option<DataSourceError>)
    ensures
        match graphql_failure(opt_seq(*errors), has_data, opt_view(message)) {
            Some(m) => r is Some && r->0.message_view() == m && !r->0.ended(),
            None => r is None,
        },
{
    match errors {
        Some(es) => {
            if es.len() == 0 {
                proof {
                    reveal_strlit("");
                    assert(error_messages(es@) =~= Seq::<Seq<char>>::empty());
                }
                Some(DataSourceError::new(""))
            } else {
                Some(DataSourceError::from_message(join_messages(es)))
            }
        },
        None => if has_data {
            None
        } else {
            match message {
                Some(m) => Some(DataSourceError::from_message(m)),
                None => Some(DataSourceError::new("empty response")),
            }
        },
    }
}

// ---------------------------------------------------------------------------
// Authenticated requests
// ---------------------------------------------------------------------------

/// The HTTP methods the app sends.
#[derive(Debug, Clone, Copy, PartialEq, Eq, Structural)]
pub enum Method {
    Get,
    Post,
}

/// `"GET"` and `"POST"`; any other method is refused.
pub fn parse_method(method: &str) -> (r: Result<Method, DataSourceError>)
    ensures
        method@ == "GET"@ ==> r == Ok::<Method, DataSourceError>(Method::Get),
        method@ == "POST"@ ==> r == Ok::<Method, DataSourceError>(Method::Post),
        method@ != "GET"@ && method@ != "POST"@ ==> r is Err && r->Err_0.message_view()
            == "unsupported HTTP method: "@ + method@,
{
    proof {
        reveal_strlit("GET");
        reveal_strlit("POST");
        reveal_strlit("");
        assert("POST"@.len() != "GET"@.len());
    }
    let m = owned(method);
    if m == owned("GET") {
        Ok(Method::Get)
    } else if m == owned("POST") {
        Ok(Method::Post)
    } else {
        Err(DataSourceError::from_message(concat3("unsupported HTTP method: ", method, "")))
    }
}

/// What to do once a bearer token was looked for.
pub enum BearerStep {
    /// Send with this token.
    Use(String),
    /// No token: try to refresh the session, then look again.
    Refresh,
    /// Not logged in.
    Fail(DataSourceError),
}

/// `bearer`: the stored access token; without one, a refresh is tried once
/// (`refreshed` says how that went, `None` before it was tried).
pub fn bearer_step(token: Option<String>, refreshed: Option<bool>) -> (s: BearerStep)
    ensures
        token is Some ==> s == BearerStep::Use(token->0),
        token is None && refreshed is None ==> s is Refresh,
        token is None && refreshed is Some ==> s is Fail && s->Fail_0.message_view()
            == "not logged in"@ && !s->Fail_0.ended(),
{
    match token {
        Some(t) => BearerStep::Use(t),
        None => match refreshed {
            None => BearerStep::Refresh,
            Some(_) => BearerStep::Fail(DataSourceError::new("not logged in")),
        },
    }
}

/// What to do after an authenticated answer came back.
#[derive(Debug, Clone, Copy, PartialEq, Eq, Structural)]
pub enum SendStep {
    /// The answer stands.
    Done,
    /// The token was refused: refresh the session and send again.
    Refresh,
    /// The token was refused again, or could not be refreshed: forget the
    /// tokens and end the session.
    EndSession,
}

/// `authed_send`, after an answer: a refused token is refreshed once; a
/// second refusal ends the session.
pub fn after_answer(did_refresh: bool, status: u16, body: &str) -> (s: SendStep)
    ensures
        !expired_auth(status, body@) ==> s == SendStep::Done,
        expired_auth(status, body@) && did_refresh ==> s == SendStep::EndSession,
        expired_auth(status, body@) && !did_refresh ==> s == SendStep::Refresh,
{
    if is_expired_auth(status, body) {
        if did_refresh {
            SendStep::EndSession
        } else {
            SendStep::Refresh
        }
    } else {
        SendStep::Done
    }
}

/// `authed_send`, after a refresh: send again when it worked, else end the
/// session.
pub fn after_refresh(refreshed: bool) -> (s: SendStep)
    ensures
        refreshed ==> s == SendStep::Done,
        !refreshed ==> s == SendStep::EndSession,
{
    if refreshed {
        SendStep::Done
    } else {
        SendStep::EndSession
    }
}

// ---------------------------------------------------------------------------
// Refreshing the session
// ---------------------------------------------------------------------------

/// Whether another refresh already replaced the refused token: there is a
/// current token, the refused one is known, and they differ.
pub fn already_refreshed(current: Option<&str>, stale: &str) -> (b: bool)
    ensures
        b == (current is Some && stale@.len() > 0 && current->0@ != stale@),
{
    match current {
        Some(c) => {
            if stale.is_empty() {
                false
            } else {
                let x = owned(c);
                let y = owned(stale);
                !(x == y)
            }
        },
        None => false,
    }
}

/// GitHub's answer to a refresh.
pub struct RefreshResponse {
    pub access_token: Option<String>,
    pub refresh_token: Option<String>,
}

/// A present, non-empty token.
pub open spec fn filled(t: Option<String>) -> bool {
    t is Some && t->0@.len() > 0
}

fn filled_token(t: Option<String>) -> (r: Option<String>)
    ensures
        filled(t) ==> r == t,
        !filled(t) ==> r is None,
{
    match t {
        Some(s) => if s.as_str().is_empty() {
            None
        } else {
            Some(s)
        },
        None => None,
    }
}

/// The tokens to save after a refresh: a new non-empty access token, with
/// the new refresh token when non-empty, else the one that was sent. `None`
/// when no access token came back.
pub fn refreshed_tokens(resp: RefreshResponse, sent: String) -> (r: Option<(String, Option<String>)>)
    ensures
        !filled(resp.access_token) ==> r is None,
        filled(resp.access_token) ==> match r {
            Some((access, refresh)) => access == resp.access_token->0 && refresh == (
            if filled(resp.refresh_token) {
                resp.refresh_token
            } else {
                Some(sent)
            }),
            None => false,
        },
{
    match filled_token(resp.access_token) {
        Some(access) => {
            let refresh = match filled_token(resp.refresh_token) {
                Some(r) => Some(r),
                None => Some(sent),
            };
            Some((access, refresh))
        },
        None => None,
    }
}

// ---------------------------------------------------------------------------
// Device login
// ---------------------------------------------------------------------------

/// GitHub's answer to the start of a device login.
pub struct DeviceCodeResponse {
    pub device_code: String,
    pub user_code: String,
    pub verification_uri: String,
    pub interval: Option<u64>,
}

/// The polling interval: GitHub's, or 5 seconds when absent, never below 5.
pub open spec fn poll_interval_secs(interval: Option<u64>) -> u64 {
    match interval {
        Some(i) => if i >= 5 {
            i
        } else {
            5
        },
        None => 5,
    }
}

/// `start_login`: the device code to show.
pub fn device_code(resp: DeviceCodeResponse) -> (code: DeviceCode)
    ensures
        code.device_code == resp.device_code,
        code.user_code == resp.user_code,
        code.verification_uri == resp.verification_uri,
        code.poll_interval_secs == poll_interval_secs(resp.interval),
{
    let interval = match resp.interval {
        Some(i) => i,
        None => 5,
    };
    DeviceCode {
        device_code: resp.device_code,
        user_code: resp.user_code,
        verification_uri: resp.verification_uri,
        poll_interval_secs: if interval >= 5 {
            interval
        } else {
            5
        },
    }
}

/// GitHub's answer to one poll of a device login.
pub struct LoginPollResponse {
    pub access_token: Option<String>,
    pub refresh_token: Option<String>,
    pub error: Option<String>,
    pub error_description: Option<String>,
}

/// What a poll of the device login means.
pub enum LoginPoll {
    /// The user approved: save these tokens.
    Save(String, Option<String>),
    /// Not yet: sleep the interval and poll again.
    Wait,
    /// The login failed.
    Fail(DataSourceError),
}

/// The message for a login poll that failed with `error`.
pub open spec fn login_error_text(error: Option<Seq<char>>, description: Option<Seq<char>>) -> Seq<char> {
    match error {
        Some(e) => if e == "expired_token"@ {
            "device code expired"@
        } else if e == "access_denied"@ {
            "user denied access"@
        } else {
            match description {
                Some(d) => d,
                None => e,
            }
        },
        None => "unknown error"@,
    }
}

/// `await_login`'s reading of one poll: a token wins; `authorization_pending`
/// and `slow_down` mean wait; every other answer is a failure.
pub fn login_poll(resp: LoginPollResponse) -> (p: LoginPoll)
    ensures
        resp.access_token is Some ==> p == LoginPoll::Save(resp.access_token->0, resp.refresh_token),
        resp.access_token is None && resp.error is Some && (resp.error->0@ == "authorization_pending"@
            || resp.error->0@ == "slow_down"@) ==> p is Wait,
        resp.access_token is None && !(resp.error is Some && (resp.error->0@
            == "authorization_pending"@ || resp.error->0@ == "slow_down"@)) ==> p is Fail
            && p->Fail_0.message_view() == login_error_text(
            opt_view(resp.error),
            opt_view(resp.error_description),
        ) && !p->Fail_0.ended(),
{
    proof {
        reveal_strlit("authorization_pending");
        reveal_strlit("slow_down");
        reveal_strlit("expired_token");
        reveal_strlit("access_denied");
    }
    if let Some(token) = resp.access_token {
        return LoginPoll::Save(token, resp.refresh_token);
    }
    match resp.error {
        Some(e) => {
            if e == owned("authorization_pending") || e == owned("slow_down") {
                LoginPoll::Wait
            } else if e == owned("expired_token") {
                LoginPoll::Fail(DataSourceError::new("device code expired"))
            } else if e == owned("access_denied") {
                LoginPoll::Fail(DataSourceError::new("user denied access"))
            } else {
                match resp.error_description {
                    Some(d) => LoginPoll::Fail(DataSourceError::from_message(d)),
                    None => LoginPoll::Fail(DataSourceError::from_message(e)),
                }
            }
        },
        None => LoginPoll::Fail(DataSourceError::new("unknown error")),
    }
}

// ---------------------------------------------------------------------------
// The user's open pull requests
// ---------------------------------------------------------------------------

/// GitHub's answer to the query for the viewer's open pull requests; `nodes`
/// is absent when the answer carries no data.
pub struct OpenPullsResponse {
    pub nodes: Option<Vec<OpenPullNode>>,
    pub message: Option<String>,
    pub errors: Option<Vec<GraphqlError>>,
}

pub struct OpenPullNode {
    pub id: String,
    pub title: String,
    pub number: u32,
    pub url: String,
    pub is_draft: bool,
    pub updated_at: String,
    pub repository: Repository,
    pub status_check_rollup: Option<StatusCheckRollup>,
    pub latest_opinionated_reviews: Option<ReviewConnection>,
    pub review_decision: Option<String>,
    pub mergeable: Option<String>,
    pub head_ref_name: Option<String>,
    pub base_ref: Option<BaseRef>,
}

pub struct Repository {
    pub name_with_owner: String,
}

pub struct StatusCheckRollup {
    pub state: Option<String>,
}

pub struct ReviewConnection {
    pub nodes: Vec<ReviewNode>,
}

pub struct ReviewNode {
    pub state: String,
}

pub struct BaseRef {
    pub branch_protection_rule: Option<BranchProtectionRule>,
    pub ref_update_rule: Option<RefUpdateRule>,
    pub rules: Option<RuleConnection>,
}

pub struct BranchProtectionRule {
    pub requires_approving_reviews: bool,
    pub required_approving_review_count: Option<u32>,
}

pub struct RefUpdateRule {
    pub required_approving_review_count: Option<u32>,
}

pub struct RuleConnection {
    pub nodes: Vec<RepositoryRule>,
}

pub struct RepositoryRule {
    pub parameters: Option<PullRequestRuleParameters>,
}

pub struct PullRequestRuleParameters {
    pub required_approving_review_count: Option<u32>,
}

/// The CI state for a status rollup state.
pub open spec fn ci_of(state: Option<Seq<char>>) -> CiStatus {
    match state {
        Some(s) => if s == "SUCCESS"@ {
            CiStatus::Success
        } else if s == "FAILURE"@ || s == "ERROR"@ {
            CiStatus::Failure
        } else if s == "PENDING"@ || s == "EXPECTED"@ {
            CiStatus::Pending
        } else {
            CiStatus::NoChecks
        },
        None => CiStatus::NoChecks,
    }
}

/// The rollup's state, when there is a rollup with one.
pub open spec fn rollup_state(r: Option<StatusCheckRollup>) -> Option<Seq<char>> {
    match r {
        Some(rollup) => opt_view(rollup.state),
        None => None,
    }
}

fn ci_status(rollup: &Option<StatusCheckRollup>) -> (c: CiStatus)
    ensures
        c == ci_of(rollup_state(*rollup)),
{
    proof {
        reveal_strlit("SUCCESS");
        reveal_strlit("FAILURE");
        reveal_strlit("ERROR");
        reveal_strlit("PENDING");
        reveal_strlit("EXPECTED");
    }
    match rollup {
        Some(r) => match &r.state {
            Some(s) => {
                if *s == owned("SUCCESS") {
                    CiStatus::Success
                } else if *s == owned("FAILURE") || *s == owned("ERROR") {
                    CiStatus::Failure
                } else if *s == owned("PENDING") || *s == owned("EXPECTED") {
                    CiStatus::Pending
                } else {
                    CiStatus::NoChecks
                }
            },
            None => CiStatus::NoChecks,
        },
        None => CiStatus::NoChecks,
    }
}

pub open spec fn max_u32(a: u32, b: u32) -> u32 {
    if a >= b {
        a
    } else {
        b
    }
}

/// The largest approval count the rulesets carry, 0 when none does.
pub open spec fn rulesets_required(nodes: Seq<RepositoryRule>) -> u32
    decreases nodes.len(),
{
    if nodes.len() == 0 {
        0
    } else {
        let here = match nodes.last().parameters {
            Some(p) => match p.required_approving_review_count {
                Some(c) => c,
                None => 0,
            },
            None => 0,
        };
        max_u32(rulesets_required(nodes.drop_last()), here)
    }
}

/// What the base branch's rules demand: the largest of the branch protection
/// count (when it requires approving reviews), the update rule's count and
/// the rulesets' count, each 0 when absent.
pub open spec fn rules_required(base: Option<BaseRef>) -> u32 {
    match base {
        None => 0,
        Some(b) => {
            let from_protection = match b.branch_protection_rule {
                Some(rule) => if rule.requires_approving_reviews {
                    match rule.required_approving_review_count {
                        Some(c) => c,
                        None => 0,
                    }
                } else {
                    0
                },
                None => 0,
            };
            let from_update_rule = match b.ref_update_rule {
                Some(rule) => match rule.required_approving_review_count {
                    Some(c) => c,
                    None => 0,
                },
                None => 0,
            };
            let from_rulesets = match b.rules {
                Some(rules) => rulesets_required(rules.nodes@),
                None => 0,
            };
            max_u32(max_u32(from_protection, from_update_rule), from_rulesets)
        },
    }
}

/// Approvals a pull request needs: what the rules demand, or 1 when they
/// demand none and GitHub's review decision is `REVIEW_REQUIRED`.
pub open spec fn approvals_required(base: Option<BaseRef>, decision: Option<Seq<char>>) -> u32 {
    let from_rules = rules_required(base);
    if from_rules == 0 && decision == Some("REVIEW_REQUIRED"@) {
        1
    } else {
        from_rules
    }
}

fn rulesets_max(nodes: &Vec<RepositoryRule>) -> (m: u32)
    ensures
        m == rulesets_required(nodes@),
{
    let mut best: u32 = 0;
    let mut i: usize = 0;
    while i < nodes.len()
        invariant
            i <= nodes.len(),
            best == rulesets_required(nodes@.take(i as int)),
        decreases nodes.len() - i,
    {
        proof {
            assert(nodes@.take(i + 1).drop_last() =~= nodes@.take(i as int));
        }
        let here = match &nodes[i].parameters {
            Some(p) => match p.required_approving_review_count {
                Some(c) => c,
                None => 0,
            },
            None => 0,
        };
        if here > best {
            best = here;
        }
        i = i + 1;
    }
    assert(nodes@.take(nodes@.len() as int) =~= nodes@);
    best
}

/// `required_approvals`: the approvals a pull request needs.
pub fn required_approvals(base: &Option<BaseRef>, decision: &Option<String>) -> (n: u32)
    ensures
        n == approvals_required(*base, opt_view(*decision)),
{
    let from_rules = match base {
        None => 0,
        Some(b) => {
            let from_protection = match &b.branch_protection_rule {
                Some(rule) => if rule.requires_approving_reviews {
                    match rule.required_approving_review_count {
                        Some(c) => c,
                        None => 0,
                    }
                } else {
                    0
                },
                None => 0,
            };
            let from_update_rule = match &b.ref_update_rule {
                Some(rule) => match rule.required_approving_review_count {
                    Some(c) => c,
                    None => 0,
                },
                None => 0,
            };
            let from_rulesets = match &b.rules {
                Some(rules) => rulesets_max(&rules.nodes),
                None => 0,
            };
            let first = if from_protection >= from_update_rule {
                from_protection
            } else {
                from_update_rule
            };
            if first >= from_rulesets {
                first
            } else {
                from_rulesets
            }
        },
    };
    proof {
        reveal_strlit("REVIEW_REQUIRED");
    }
    let review_required = match decision {
        Some(d) => *d == owned("REVIEW_REQUIRED"),
        None => false,
    };
    if from_rules == 0 && review_required {
        1
    } else {
        from_rules
    }
}

/// The number of reviews whose state is `APPROVED`.
pub open spec fn approved_reviews(nodes: Seq<ReviewNode>) -> nat
    decreases nodes.len(),
{
    if nodes.len() == 0 {
        0
    } else {
        approved_reviews(nodes.drop_last()) + if nodes.last().state@ == "APPROVED"@ {
            1nat
        } else {
            0nat
        }
    }
}

/// The approvals shown: the approving reviews, 0 without reviews; the count
/// is taken as a `u32`, as `count() as u32` does.
pub open spec fn approvals_of(reviews: Option<ReviewConnection>) -> u32 {
    match reviews {
        Some(c) => approved_reviews(c.nodes@) as u32,
        None => 0,
    }
}

proof fn lemma_approved_bounded(nodes: Seq<ReviewNode>)
    ensures
        approved_reviews(nodes) <= nodes.len(),
    decreases nodes.len(),
{
    if nodes.len() > 0 {
        lemma_approved_bounded(nodes.drop_last());
    }
}

fn approvals(reviews: &Option<ReviewConnection>) -> (n: u32)
    ensures
        n == approvals_of(*reviews),
{
    match reviews {
        None => 0,
        Some(c) => {
            proof {
                reveal_strlit("APPROVED");
            }
            let approved = owned("APPROVED");
            let mut count: usize = 0;
            let mut i: usize = 0;
            while i < c.nodes.len()
                invariant
                    i <= c.nodes.len(),
                    approved@ == "APPROVED"@,
                    count == approved_reviews(c.nodes@.take(i as int)),
                    count <= i,
                decreases c.nodes.len() - i,
            {
                proof {
                    assert(c.nodes@.take(i + 1).drop_last() =~= c.nodes@.take(i as int));
                    lemma_approved_bounded(c.nodes@.take(i as int));
                }
                if c.nodes[i].state == approved {
                    count = count + 1;
                }
                i = i + 1;
            }
            assert(c.nodes@.take(c.nodes@.len() as int) =~= c.nodes@);
            count as u32
        },
    }
}

/// How one node of the answer becomes a pull request of the list.
pub open spec fn is_pull_request_of(node: OpenPullNode, p: PullRequest) -> bool {
    &&& p.id == node.id
    &&& p.title == node.title
    &&& p.repo == node.repository.name_with_owner
    &&& p.number == node.number
    &&& p.url == node.url
    &&& p.status == if node.is_draft {
        PrStatus::Draft
    } else {
        PrStatus::Open
    }
    &&& p.ci == ci_of(rollup_state(node.status_check_rollup))
    &&& p.approvals == approvals_of(node.latest_opinionated_reviews)
    &&& p.required_approvals == approvals_required(node.base_ref, opt_view(node.review_decision))
    &&& p.has_conflicts == (opt_view(node.mergeable) == Some("CONFLICTING"@))
    &&& p.branch@ == match node.head_ref_name {
        Some(b) => b@,
        None => Seq::empty(),
    }
    &&& p.updated_at == node.updated_at
}

/// One node as a pull request of the list.
pub fn pull_request(node: OpenPullNode) -> (p: PullRequest)
    ensures
        is_pull_request_of(node, p),
{
    let ci = ci_status(&node.status_check_rollup);
    let approvals = approvals(&node.latest_opinionated_reviews);
    let required = required_approvals(&node.base_ref, &node.review_decision);
    proof {
        reveal_strlit("CONFLICTING");
    }
    let has_conflicts = match &node.mergeable {
        Some(m) => *m == owned("CONFLICTING"),
        None => false,
    };
    let branch = match node.head_ref_name {
        Some(b) => b,
        None => String::new(),
    };
    PullRequest {
        id: node.id,
        title: node.title,
        repo: node.repository.name_with_owner,
        number: node.number,
        url: node.url,
        status: if node.is_draft {
            PrStatus::Draft
        } else {
            PrStatus::Open
        },
        ci,
        approvals,
        required_approvals: required,
        has_conflicts,
        branch,
        updated_at: node.updated_at,
    }
}

/// `my_pull_requests`' reading of the answer: GraphQL errors win;
/// without data, the answer's message (or `"empty response"`); otherwise
/// every node, in order, as a pull request of the list.
pub fn open_pull_requests(resp: OpenPullsResponse) -> (r: Result<Vec<PullRequest>, DataSourceError>)
    ensures
        match graphql_failure(opt_seq(resp.errors), resp.nodes is Some, opt_view(resp.message)) {
            Some(m) => r is Err && r->Err_0.message_view() == m && !r->Err_0.ended(),
            None => r is Ok && r->Ok_0@.len() == resp.nodes->0@.len() && forall|i: int|
                0 <= i < r->Ok_0@.len() ==> is_pull_request_of(
                    resp.nodes->0@[i],
                    #[trigger] r->Ok_0@[i],
                ),
        },
{
    let failure = graphql_error(&resp.errors, resp.nodes.is_some(), resp.message);
    if let Some(e) = failure {
        return Err(e);
    }
    let nodes = match resp.nodes {
        Some(n) => n,
        None => Vec::new(),
    };
    let ghost all = nodes@;
    let mut prs: Vec<PullRequest> = Vec::new();
    for node in it: nodes
        invariant
            it.seq() == all,
            prs@.len() == it.index(),
            forall|i: int| 0 <= i < prs@.len() ==> is_pull_request_of(all[i], #[trigger] prs@[i]),
    {
        let p = pull_request(node);
        prs.push(p);
    }
    Ok(prs)
}

// ---------------------------------------------------------------------------
// Newest first
// ---------------------------------------------------------------------------

/// `x` put into the list `s`, which runs newest first: before the first entry
/// that is older than `x`, so after every entry as new as `x`.
pub open spec fn insert_newest_first(s: Seq<ActivityView>, x: ActivityView) -> Seq<ActivityView>
    decreases s.len(),
{
    if s.len() == 0 {
        seq![x]
    } else if seq_lt(s[0].occurred_at, x.occurred_at) {
        seq![x] + s
    } else {
        seq![s[0]] + insert_newest_first(s.drop_first(), x)
    }
}

/// The entries of `s` newest first by `occurred_at`, in the order of `str`;
/// entries that occurred at the same time keep their order (a stable sort).
pub open spec fn newest_first(s: Seq<ActivityView>) -> Seq<ActivityView>
    decreases s.len(),
{
    if s.len() == 0 {
        Seq::empty()
    } else {
        insert_newest_first(newest_first(s.drop_last()), s.last())
    }
}

proof fn lemma_insert_at(s: Seq<ActivityView>, x: ActivityView, p: int)
    requires
        0 <= p <= s.len(),
        forall|j: int| 0 <= j < p ==> !seq_lt(#[trigger] s[j].occurred_at, x.occurred_at),
        p == s.len() || seq_lt(s[p].occurred_at, x.occurred_at),
    ensures
        insert_newest_first(s, x) == s.insert(p, x),
    decreases p,
{
    if p == 0 {
        if s.len() == 0 {
            assert(seq![x] =~= s.insert(0, x));
        } else {
            assert(seq![x] + s =~= s.insert(0, x));
        }
    } else {
        let t = s.drop_first();
        assert forall|j: int| 0 <= j < p - 1 implies !seq_lt(#[trigger] t[j].occurred_at, x.occurred_at) by {
            assert(t[j] == s[j + 1]);
        }
        if p < s.len() {
            assert(t[p - 1] == s[p]);
        }
        lemma_insert_at(t, x, p - 1);
        assert(!seq_lt(s[0].occurred_at, x.occurred_at));
        assert(seq![s[0]] + t.insert(p - 1, x) =~= s.insert(p, x));
    }
}

/// Sorts the feed newest first, keeping the order of simultaneous entries.
pub fn sort_newest_first(items: Vec<ActivityItem>) -> (r: Vec<ActivityItem>)
    ensures
        views(r@) == newest_first(views(items@)),
{
    let ghost all = items@;
    let mut sorted: Vec<ActivityItem> = Vec::new();
    let mut keys: Vec<Vec<char>> = Vec::new();
    for item in it: items
        invariant
            it.seq() == all,
            views(sorted@) == newest_first(views(all.take(it.index() as int))),
            keys@.len() == sorted@.len(),
            forall|j: int| 0 <= j < keys@.len() ==> #[trigger] keys@[j]@ == sorted@[j].occurred_at@,
    {
        let ghost i = it.index();
        let k = chars_of(item.occurred_at.as_str());
        let mut p: usize = 0;
        while p < sorted.len() && !chars_lt(&keys[p], &k)
            invariant
                p <= sorted.len(),
                keys@.len() == sorted@.len(),
                forall|j: int| 0 <= j < keys@.len() ==> #[trigger] keys@[j]@ == sorted@[j].occurred_at@,
                k@ == item.occurred_at@,
                forall|j: int| 0 <= j < p ==> !seq_lt(#[trigger] sorted@[j].occurred_at@, item.occurred_at@),
            decreases sorted.len() - p,
        {
            p = p + 1;
        }
        proof {
            let s = views(sorted@);
            assert forall|j: int| 0 <= j < p implies !seq_lt(#[trigger] s[j].occurred_at, item@.occurred_at) by {
                assert(s[j] == sorted@[j]@);
            }
            if p < sorted.len() {
                assert(s[p as int] == sorted@[p as int]@);
            }
            lemma_insert_at(s, item@, p as int);
            assert(all.take(i + 1).drop_last() =~= all.take(i as int));
            assert(views(all.take(i + 1)).drop_last() =~= views(all.take(i as int)));
            assert(views(all.take(i + 1)).last() == item@);
        }
        let ghost before = sorted@;
        let ghost iv = item@;
        sorted.insert(p, item);
        keys.insert(p, k);
        proof {
            assert(views(sorted@) =~= views(before).insert(p as int, iv));
        }
    }
    proof {
        assert(all.take(all.len() as int) =~= all);
    }
    sorted
}

// ---------------------------------------------------------------------------
// The activity on the user's pull requests
// ---------------------------------------------------------------------------

/// The longest feed the app keeps.
pub const FEED_LIMIT: usize = 80;

/// GitHub's answer to the activity query; `viewer` is absent when the answer
/// carries no data.
pub struct ActivityResponse {
    pub viewer: Option<ActivityViewer>,
    pub message: Option<String>,
    pub errors: Option<Vec<GraphqlError>>,
}

pub struct ActivityViewer {
    pub login: String,
    pub pull_requests: ActivityPullConnection,
}

pub struct ActivityPullConnection {
    pub nodes: Vec<ActivityPull>,
}

pub struct ActivityPull {
    pub title: String,
    pub number: u32,
    pub url: String,
    pub merged_at: Option<String>,
    pub merged_by: Option<Actor>,
    pub repository: Repository,
    pub timeline_items: TimelineConnection,
    pub comments: CommentConnection,
    pub reviews: ActivityReviewConnection,
}

pub struct TimelineConnection {
    pub nodes: Vec<TimelineNode>,
}

pub struct TimelineNode {
    pub typename: String,
    pub created_at: Option<String>,
    pub actor: Option<Actor>,
}

pub struct Actor {
    pub login: String,
    pub avatar_url: String,
    pub name: Option<String>,
}

pub struct CommentConnection {
    pub nodes: Vec<CommentNode>,
}

pub struct CommentNode {
    pub author: Option<Actor>,
    pub created_at: String,
    pub url: String,
}

pub struct ActivityReviewConnection {
    pub nodes: Vec<ActivityReview>,
}

pub struct ActivityReview {
    pub author: Option<Actor>,
    pub state: String,
    pub submitted_at: Option<String>,
    pub url: String,
    pub comments: CommentConnection,
}

/// What every entry about one pull request shares.
pub struct Head {
    pub title: Seq<char>,
    pub repo: Seq<char>,
    pub number: u32,
}

pub open spec fn head_of(pr: ActivityPull) -> Head {
    Head { title: pr.title@, repo: pr.repository.name_with_owner@, number: pr.number }
}

pub open spec fn entry(
    kind: ActivityKind,
    actor: Seq<char>,
    avatar_url: Option<Seq<char>>,
    head: Head,
    url: Seq<char>,
    occurred_at: Seq<char>,
) -> ActivityView {
    ActivityView {
        kind,
        actor,
        avatar_url,
        pr_title: head.title,
        repo: head.repo,
        number: head.number,
        url,
        occurred_at,
    }
}

/// The name shown for an actor: the trimmed name when it is not empty, else
/// the login.
pub open spec fn display_name(a: Actor) -> Seq<char> {
    match a.name {
        Some(n) => if trimmed(n@).len() > 0 {
            trimmed(n@)
        } else {
            a.login@
        },
        None => a.login@,
    }
}

/// The name shown for an actor that may be unknown: `"someone"` then.
pub open spec fn actor_name(a: Option<Actor>) -> Seq<char> {
    match a {
        Some(x) => display_name(x),
        None => "someone"@,
    }
}

pub open spec fn actor_avatar(a: Option<Actor>) -> Option<Seq<char>> {
    match a {
        Some(x) => Some(x.avatar_url@),
        None => None,
    }
}

/// The merge of a pull request, when it was merged.
pub open spec fn merge_entries(pr: ActivityPull) -> Seq<ActivityView> {
    match pr.merged_at {
        Some(m) => seq![
            entry(
                ActivityKind::Merged,
                actor_name(pr.merged_by),
                actor_avatar(pr.merged_by),
                head_of(pr),
                pr.url@,
                m@,
            ),
        ],
        None => Seq::empty(),
    }
}

/// A closing or reopening with a time; a closing at the time of the merge is
/// the merge itself and is left out.
pub open spec fn timeline_entry(head: Head, url: Seq<char>, merged_at: Option<Seq<char>>, e: TimelineNode) -> Seq<
    ActivityView,
> {
    match e.created_at {
        None => Seq::empty(),
        Some(at) => if e.typename@ == "ClosedEvent"@ {
            if merged_at == Some(at@) {
                Seq::empty()
            } else {
                seq![entry(ActivityKind::Closed, actor_name(e.actor), actor_avatar(e.actor), head, url, at@)]
            }
        } else if e.typename@ == "ReopenedEvent"@ {
            seq![entry(ActivityKind::Reopened, actor_name(e.actor), actor_avatar(e.actor), head, url, at@)]
        } else {
            Seq::empty()
        },
    }
}

pub open spec fn timeline_entries(
    head: Head,
    url: Seq<char>,
    merged_at: Option<Seq<char>>,
    nodes: Seq<TimelineNode>,
) -> Seq<ActivityView>
    decreases nodes.len(),
{
    if nodes.len() == 0 {
        Seq::empty()
    } else {
        timeline_entries(head, url, merged_at, nodes.drop_last()) + timeline_entry(
            head,
            url,
            merged_at,
            nodes.last(),
        )
    }
}

/// A comment by someone other than the user `me`; one without an author is
/// left out.
pub open spec fn comment_entry(head: Head, me: Seq<char>, c: CommentNode) -> Seq<ActivityView> {
    match c.author {
        None => Seq::empty(),
        Some(a) => if a.login@ == me {
            Seq::empty()
        } else {
            seq![entry(ActivityKind::Comment, display_name(a), Some(a.avatar_url@), head, c.url@, c.created_at@)]
        },
    }
}

pub open spec fn comment_entries(head: Head, me: Seq<char>, nodes: Seq<CommentNode>) -> Seq<ActivityView>
    decreases nodes.len(),
{
    if nodes.len() == 0 {
        Seq::empty()
    } else {
        comment_entries(head, me, nodes.drop_last()) + comment_entry(head, me, nodes.last())
    }
}

/// The kind of entry a review state makes, if any.
pub open spec fn review_kind(state: Seq<char>) -> Option<ActivityKind> {
    if state == "APPROVED"@ {
        Some(ActivityKind::Approved)
    } else if state == "CHANGES_REQUESTED"@ {
        Some(ActivityKind::ChangesRequested)
    } else {
        None
    }
}

/// A submitted approval or change request by someone other than `me`.
pub open spec fn review_entry(head: Head, me: Seq<char>, r: ActivityReview) -> Seq<ActivityView> {
    let is_self = r.author is Some && r.author->0.login@ == me;
    if !is_self && r.submitted_at is Some && review_kind(r.state@) is Some {
        seq![
            entry(
                review_kind(r.state@)->0,
                actor_name(r.author),
                actor_avatar(r.author),
                head,
                r.url@,
                r.submitted_at->0@,
            ),
        ]
    } else {
        Seq::empty()
    }
}

/// Each review's own entry, followed by the entries of its comments.
pub open spec fn review_entries(head: Head, me: Seq<char>, reviews: Seq<ActivityReview>) -> Seq<ActivityView>
    decreases reviews.len(),
{
    if reviews.len() == 0 {
        Seq::empty()
    } else {
        review_entries(head, me, reviews.drop_last()) + review_entry(head, me, reviews.last())
            + comment_entries(head, me, reviews.last().comments.nodes@)
    }
}

/// The entries of one pull request: its merge, its closings and reopenings,
/// its comments, then its reviews with their comments.
pub open spec fn pull_entries(pr: ActivityPull, me: Seq<char>) -> Seq<ActivityView> {
    merge_entries(pr) + timeline_entries(head_of(pr), pr.url@, opt_view(pr.merged_at), pr.timeline_items.nodes@)
        + comment_entries(head_of(pr), me, pr.comments.nodes@) + review_entries(
        head_of(pr),
        me,
        pr.reviews.nodes@,
    )
}

/// The entries of all pull requests, in the answer's order.
pub open spec fn feed_entries(prs: Seq<ActivityPull>, me: Seq<char>) -> Seq<ActivityView>
    decreases prs.len(),
{
    if prs.len() == 0 {
        Seq::empty()
    } else {
        feed_entries(prs.drop_last(), me) + pull_entries(prs.last(), me)
    }
}

/// The feed shown: every entry, newest first, at most `FEED_LIMIT` of them.
pub open spec fn feed(prs: Seq<ActivityPull>, me: Seq<char>) -> Seq<ActivityView> {
    let sorted = newest_first(feed_entries(prs, me));
    if sorted.len() <= FEED_LIMIT {
        sorted
    } else {
        sorted.take(FEED_LIMIT as int)
    }
}

fn display_name_of(a: &Actor) -> (s: String)
    ensures
        s@ == display_name(*a),
{
    match &a.name {
        Some(n) => {
            let t = trim(n.as_str());
            if t.is_empty() {
                a.login.clone()
            } else {
                owned(t)
            }
        },
        None => a.login.clone(),
    }
}

fn actor_name_of(a: &Option<Actor>) -> (s: String)
    ensures
        s@ == actor_name(*a),
{
    match a {
        Some(x) => display_name_of(x),
        None => owned("someone"),
    }
}

fn actor_avatar_of(a: &Option<Actor>) -> (s: Option<String>)
    ensures
        opt_view(s) == actor_avatar(*a),
{
    match a {
        Some(x) => Some(x.avatar_url.clone()),
        None => None,
    }
}

fn new_entry(
    kind: ActivityKind,
    actor: String,
    avatar_url: Option<String>,
    title: &String,
    repo: &String,
    number: u32,
    url: String,
    occurred_at: String,
) -> (i: ActivityItem)
    ensures
        i@ == entry(kind, actor@, opt_view(avatar_url), Head { title: title@, repo: repo@, number }, url@, occurred_at@),
{
    ActivityItem {
        kind,
        actor,
        avatar_url,
        pr_title: title.clone(),
        repo: repo.clone(),
        number,
        url,
        occurred_at,
    }
}

fn push_comments(
    items: &mut Vec<ActivityItem>,
    title: &String,
    repo: &String,
    number: u32,
    me: &String,
    comments: Vec<CommentNode>,
)
    ensures
        views(final(items)@) == views(old(items)@) + comment_entries(
            Head { title: title@, repo: repo@, number },
            me@,
            comments@,
        ),
{
    let ghost head = Head { title: title@, repo: repo@, number };
    let ghost start = views(items@);
    let ghost all = comments@;
    for c in it: comments
        invariant
            it.seq() == all,
            head == (Head { title: title@, repo: repo@, number }),
            views(items@) == start + comment_entries(head, me@, all.take(it.index() as int)),
    {
        let ghost i = it.index();
        let ghost cv = c;
        let ghost before = views(items@);
        proof {
            assert(all.take(i + 1).drop_last() =~= all.take(i as int));
        }
        match c.author {
            None => {
                assert(before + comment_entry(head, me@, cv) =~= before);
            },
            Some(author) => {
                if author.login == *me {
                    assert(before + comment_entry(head, me@, cv) =~= before);
                } else {
                    let actor = display_name_of(&author);
                    let e = new_entry(
                        ActivityKind::Comment,
                        actor,
                        Some(author.avatar_url),
                        title,
                        repo,
                        number,
                        c.url,
                        c.created_at,
                    );
                    items.push(e);
                    assert(views(items@) =~= before + comment_entry(head, me@, cv));
                }
            },
        }
    }
    proof {
        assert(all.take(all.len() as int) =~= all);
    }
}

fn push_timeline(
    items: &mut Vec<ActivityItem>,
    title: &String,
    repo: &String,
    number: u32,
    url: &String,
    merged_at: &Option<String>,
    nodes: Vec<TimelineNode>,
)
    ensures
        views(final(items)@) == views(old(items)@) + timeline_entries(
            Head { title: title@, repo: repo@, number },
            url@,
            opt_view(*merged_at),
            nodes@,
        ),
{
    let ghost head = Head { title: title@, repo: repo@, number };
    let ghost start = views(items@);
    let ghost all = nodes@;
    proof {
        reveal_strlit("ClosedEvent");
        reveal_strlit("ReopenedEvent");
    }
    let closed = owned("ClosedEvent");
    let reopened = owned("ReopenedEvent");
    for e in it: nodes
        invariant
            it.seq() == all,
            head == (Head { title: title@, repo: repo@, number }),
            closed@ == "ClosedEvent"@,
            reopened@ == "ReopenedEvent"@,
            views(items@) == start + timeline_entries(head, url@, opt_view(*merged_at), all.take(it.index() as int)),
    {
        let ghost i = it.index();
        let ghost ev = e;
        let ghost before = views(items@);
        proof {
            assert(all.take(i + 1).drop_last() =~= all.take(i as int));
        }
        match e.created_at {
            None => {
                assert(before + timeline_entry(head, url@, opt_view(*merged_at), ev) =~= before);
            },
            Some(at) => {
                let kind = if e.typename == closed {
                    let same_as_merge = match merged_at {
                        Some(m) => *m == at,
                        None => false,
                    };
                    if same_as_merge {
                        None
                    } else {
                        Some(ActivityKind::Closed)
                    }
                } else if e.typename == reopened {
                    Some(ActivityKind::Reopened)
                } else {
                    None
                };
                match kind {
                    None => {
                        assert(before + timeline_entry(head, url@, opt_view(*merged_at), ev) =~= before);
                    },
                    Some(k) => {
                        let actor = actor_name_of(&e.actor);
                        let avatar = actor_avatar_of(&e.actor);
                        let item = new_entry(k, actor, avatar, title, repo, number, url.clone(), at);
                        items.push(item);
                        assert(views(items@) =~= before + timeline_entry(head, url@, opt_view(*merged_at), ev));
                    },
                }
            },
        }
    }
    proof {
        assert(all.take(all.len() as int) =~= all);
    }
}

fn review_kind_of(state: &String) -> (k: Option<ActivityKind>)
    ensures
        k == review_kind(state@),
{
    proof {
        reveal_strlit("APPROVED");
        reveal_strlit("CHANGES_REQUESTED");
    }
    if *state == owned("APPROVED") {
        Some(ActivityKind::Approved)
    } else if *state == owned("CHANGES_REQUESTED") {
        Some(ActivityKind::ChangesRequested)
    } else {
        None
    }
}

fn push_reviews(
    items: &mut Vec<ActivityItem>,
    title: &String,
    repo: &String,
    number: u32,
    me: &String,
    reviews: Vec<ActivityReview>,
)
    ensures
        views(final(items)@) == views(old(items)@) + review_entries(
            Head { title: title@, repo: repo@, number },
            me@,
            reviews@,
        ),
{
    let ghost head = Head { title: title@, repo: repo@, number };
    let ghost start = views(items@);
    let ghost all = reviews@;
    for r in it: reviews
        invariant
            it.seq() == all,
            head == (Head { title: title@, repo: repo@, number }),
            views(items@) == start + review_entries(head, me@, all.take(it.index() as int)),
    {
        let ghost i = it.index();
        let ghost rv = r;
        let ghost before = views(items@);
        proof {
            assert(all.take(i + 1).drop_last() =~= all.take(i as int));
        }
        let is_self = match &r.author {
            Some(a) => a.login == *me,
            None => false,
        };
        let kind = review_kind_of(&r.state);
        if !is_self && r.submitted_at.is_some() && kind.is_some() {
            let k = match kind {
                Some(k) => k,
                None => ActivityKind::Comment,
            };
            let at = match r.submitted_at {
                Some(t) => t,
                None => String::new(),
            };
            let actor = actor_name_of(&r.author);
            let avatar = actor_avatar_of(&r.author);
            let item = new_entry(k, actor, avatar, title, repo, number, r.url, at);
            items.push(item);
            assert(views(items@) =~= before + review_entry(head, me@, rv));
        } else {
            assert(before + review_entry(head, me@, rv) =~= before);
        }
        let ghost middle = views(items@);
        push_comments(items, title, repo, number, me, r.comments.nodes);
        proof {
            assert(views(items@) =~= before + review_entry(head, me@, rv) + comment_entries(head, me@, rv.comments.nodes@));
        }
    }
    proof {
        assert(all.take(all.len() as int) =~= all);
    }
}

fn push_pull(items: &mut Vec<ActivityItem>, me: &String, pr: ActivityPull)
    ensures
        views(final(items)@) == views(old(items)@) + pull_entries(pr, me@),
{
    let ghost p = pr;
    let ghost start = views(items@);
    let ActivityPull {
        title,
        number,
        url,
        merged_at,
        merged_by,
        repository,
        timeline_items,
        comments,
        reviews,
    } = pr;
    let repo = repository.name_with_owner;
    match &merged_at {
        Some(m) => {
            let actor = actor_name_of(&merged_by);
            let avatar = actor_avatar_of(&merged_by);
            let item = new_entry(ActivityKind::Merged, actor, avatar, &title, &repo, number, url.clone(), m.clone());
            items.push(item);
            assert(views(items@) =~= start + merge_entries(p));
        },
        None => {
            assert(start + merge_entries(p) =~= start);
        },
    }
    push_timeline(items, &title, &repo, number, &url, &merged_at, timeline_items.nodes);
    push_comments(items, &title, &repo, number, me, comments.nodes);
    push_reviews(items, &title, &repo, number, me, reviews.nodes);
    proof {
        assert(views(items@) =~= start + pull_entries(p, me@));
    }
}

/// `my_pr_activity`'s reading of the answer: GraphQL errors win; without
/// data, the answer's message (or `"empty response"`); otherwise the entries
/// of every pull request newest first, at most `FEED_LIMIT` of them.
pub fn activity_feed(resp: ActivityResponse) -> (r: Result<Vec<ActivityItem>, DataSourceError>)
    ensures
        match graphql_failure(opt_seq(resp.errors), resp.viewer is Some, opt_view(resp.message)) {
            Some(m) => r is Err && r->Err_0.message_view() == m && !r->Err_0.ended(),
            None => r is Ok && views(r->Ok_0@) == feed(
                resp.viewer->0.pull_requests.nodes@,
                resp.viewer->0.login@,
            ),
        },
{
    let failure = graphql_error(&resp.errors, resp.viewer.is_some(), resp.message);
    if let Some(e) = failure {
        return Err(e);
    }
    let viewer = match resp.viewer {
        Some(v) => v,
        None => ActivityViewer {
            login: String::new(),
            pull_requests: ActivityPullConnection { nodes: Vec::new() },
        },
    };
    let me = viewer.login;
    let ghost all = viewer.pull_requests.nodes@;
    let mut items: Vec<ActivityItem> = Vec::new();
    for pr in it: viewer.pull_requests.nodes
        invariant
            it.seq() == all,
            views(items@) == feed_entries(all.take(it.index() as int), me@),
    {
        let ghost i = it.index();
        proof {
            assert(all.take(i + 1).drop_last() =~= all.take(i as int));
        }
        push_pull(&mut items, &me, pr);
    }
    proof {
        assert(all.take(all.len() as int) =~= all);
    }
    let mut sorted = sort_newest_first(items);
    let ghost full = sorted@;
    sorted.truncate(FEED_LIMIT);
    proof {
        if full.len() > FEED_LIMIT {
            assert(views(sorted@) =~= views(full).take(FEED_LIMIT as int));
        }
    }
    Ok(sorted)
}

// ---------------------------------------------------------------------------
// What holds of every feed
// ---------------------------------------------------------------------------

/// No entry of `s` is newer than one before it.
pub open spec fn runs_newest_first(s: Seq<ActivityView>) -> bool {
    forall|i: int, j: int|
        0 <= i < j < s.len() ==> !seq_lt(#[trigger] s[i].occurred_at, #[trigger] s[j].occurred_at)
}

proof fn lemma_insert_newest_first(s: Seq<ActivityView>, x: ActivityView) -> (p: int)
    ensures
        0 <= p <= s.len(),
        insert_newest_first(s, x) == s.insert(p, x),
        runs_newest_first(s) ==> runs_newest_first(insert_newest_first(s, x)),
    decreases s.len(),
{
    if s.len() == 0 {
        assert(seq![x] =~= s.insert(0, x));
        0
    } else if seq_lt(s[0].occurred_at, x.occurred_at) {
        let r = seq![x] + s;
        assert(r =~= s.insert(0, x));
        if runs_newest_first(s) {
            assert forall|i: int, j: int| 0 <= i < j < r.len() implies !seq_lt(
                #[trigger] r[i].occurred_at,
                #[trigger] r[j].occurred_at,
            ) by {
                if i == 0 {
                    assert(r[j] == s[j - 1]);
                    if seq_lt(x.occurred_at, s[j - 1].occurred_at) {
                        lemma_lt_transitive(s[0].occurred_at, x.occurred_at, s[j - 1].occurred_at);
                        if j - 1 > 0 {
                            assert(!seq_lt(s[0].occurred_at, s[j - 1].occurred_at));
                        } else {
                            lemma_lt_irreflexive(s[0].occurred_at);
                        }
                    }
                } else {
                    assert(r[i] == s[i - 1] && r[j] == s[j - 1]);
                }
            }
        }
        0
    } else {
        let t = s.drop_first();
        let q = lemma_insert_newest_first(t, x);
        let r = seq![s[0]] + t.insert(q, x);
        assert(r =~= s.insert(q + 1, x));
        if runs_newest_first(s) {
            assert(runs_newest_first(t)) by {
                assert forall|i: int, j: int| 0 <= i < j < t.len() implies !seq_lt(
                    #[trigger] t[i].occurred_at,
                    #[trigger] t[j].occurred_at,
                ) by {
                    assert(t[i] == s[i + 1] && t[j] == s[j + 1]);
                }
            }
            let u = t.insert(q, x);
            assert forall|i: int, j: int| 0 <= i < j < r.len() implies !seq_lt(
                #[trigger] r[i].occurred_at,
                #[trigger] r[j].occurred_at,
            ) by {
                if i == 0 {
                    assert(r[j] == u[j - 1]);
                    if j - 1 < q {
                        assert(u[j - 1] == s[j]);
                    } else if j - 1 == q {
                        assert(u[j - 1] == x);
                    } else {
                        assert(u[j - 1] == s[j - 1]);
                    }
                } else {
                    assert(r[i] == u[i - 1] && r[j] == u[j - 1]);
                }
            }
        }
        q + 1
    }
}

/// Sorting newest first orders the entries and keeps each of them.
pub proof fn lemma_newest_first(s: Seq<ActivityView>)
    ensures
        runs_newest_first(newest_first(s)),
        newest_first(s).to_multiset() == s.to_multiset(),
        newest_first(s).len() == s.len(),
    decreases s.len(),
{
    broadcast use vstd::seq_lib::group_to_multiset_ensures;

    if s.len() == 0 {
        assert(newest_first(s).to_multiset() =~= s.to_multiset());
    } else {
        let rest = newest_first(s.drop_last());
        lemma_newest_first(s.drop_last());
        let p = lemma_insert_newest_first(rest, s.last());
        assert(s.drop_last().push(s.last()) =~= s);
        assert(newest_first(s).to_multiset() =~= rest.to_multiset().insert(s.last()));
    }
}

/// The feed runs newest first and holds `FEED_LIMIT` entries at most: every
/// entry of the answer when there are no more, else the newest ones, none of
/// those left out being newer than one kept; every entry shown is one of the
/// answer's.
pub proof fn law_feed_is_the_newest(prs: Seq<ActivityPull>, me: Seq<char>)
    ensures
        runs_newest_first(feed(prs, me)),
        feed(prs, me).len() == if feed_entries(prs, me).len() <= FEED_LIMIT {
            feed_entries(prs, me).len()
        } else {
            FEED_LIMIT as nat
        },
        feed_entries(prs, me).len() <= FEED_LIMIT ==> feed(prs, me).to_multiset() == feed_entries(
            prs,
            me,
        ).to_multiset(),
        forall|i: int|
            0 <= i < feed(prs, me).len() ==> feed_entries(prs, me).contains(#[trigger] feed(prs, me)[i]),
        forall|i: int, j: int|
            0 <= i < feed(prs, me).len() <= j < newest_first(feed_entries(prs, me)).len() ==> !seq_lt(
                #[trigger] newest_first(feed_entries(prs, me))[i].occurred_at,
                #[trigger] newest_first(feed_entries(prs, me))[j].occurred_at,
            ),
{
    broadcast use vstd::seq_lib::group_to_multiset_ensures;

    let all = feed_entries(prs, me);
    let sorted = newest_first(all);
    lemma_newest_first(all);
    let f = feed(prs, me);
    assert forall|i: int| 0 <= i < f.len() implies all.contains(#[trigger] f[i]) by {
        assert(f[i] == sorted[i]);
        assert(sorted.to_multiset().count(sorted[i]) > 0);
        assert(all.to_multiset().count(sorted[i]) > 0);
    }
}

proof fn lemma_contains_concat<A>(a: Seq<A>, b: Seq<A>, x: A)
    ensures
        a.contains(x) ==> (a + b).contains(x),
        b.contains(x) ==> (a + b).contains(x),
{
    if a.contains(x) {
        let i = choose|i: int| 0 <= i < a.len() && a[i] == x;
        assert((a + b)[i] == x);
    }
    if b.contains(x) {
        let j = choose|j: int| 0 <= j < b.len() && b[j] == x;
        assert((a + b)[a.len() + j] == x);
    }
}

proof fn lemma_review_in_entries(head: Head, me: Seq<char>, reviews: Seq<ActivityReview>, k: int, x: ActivityView)
    requires
        0 <= k < reviews.len(),
        review_entry(head, me, reviews[k]).contains(x),
    ensures
        review_entries(head, me, reviews).contains(x),
    decreases reviews.len(),
{
    let rest = review_entries(head, me, reviews.drop_last());
    let own = review_entry(head, me, reviews.last());
    let comments = comment_entries(head, me, reviews.last().comments.nodes@);
    if k == reviews.len() - 1 {
        lemma_contains_concat(rest, own, x);
    } else {
        assert(reviews.drop_last()[k] == reviews[k]);
        lemma_review_in_entries(head, me, reviews.drop_last(), k, x);
        lemma_contains_concat(rest, own, x);
    }
    lemma_contains_concat(rest + own, comments, x);
}

proof fn lemma_pull_in_feed(prs: Seq<ActivityPull>, me: Seq<char>, p: int, x: ActivityView)
    requires
        0 <= p < prs.len(),
        pull_entries(prs[p], me).contains(x),
    ensures
        feed_entries(prs, me).contains(x),
    decreases prs.len(),
{
    let rest = feed_entries(prs.drop_last(), me);
    if p == prs.len() - 1 {
        lemma_contains_concat(rest, pull_entries(prs.last(), me), x);
    } else {
        assert(prs.drop_last()[p] == prs[p]);
        lemma_pull_in_feed(prs.drop_last(), me, p, x);
        lemma_contains_concat(rest, pull_entries(prs.last(), me), x);
    }
}

/// A submitted review by someone other than the user, on one of the user's
/// pull requests, is in the feed: an approval (`APPROVED`) as an `Approved`
/// entry and a change request (`CHANGES_REQUESTED`) as a
/// `ChangesRequested` entry, by the review's author at the time it was
/// submitted; when the answer holds no more than `FEED_LIMIT` entries, the
/// feed shown holds it too.
pub proof fn law_reviews_reach_the_feed(prs: Seq<ActivityPull>, me: Seq<char>, p: int, k: int)
    requires
        0 <= p < prs.len(),
        0 <= k < prs[p].reviews.nodes@.len(),
        prs[p].reviews.nodes@[k].submitted_at is Some,
        !(prs[p].reviews.nodes@[k].author is Some && prs[p].reviews.nodes@[k].author->0.login@ == me),
    ensures
        ({
            let pr = prs[p];
            let r = pr.reviews.nodes@[k];
            let shown = |kind: ActivityKind|
                ActivityView {
                    kind,
                    actor: actor_name(r.author),
                    avatar_url: actor_avatar(r.author),
                    pr_title: pr.title@,
                    repo: pr.repository.name_with_owner@,
                    number: pr.number,
                    url: r.url@,
                    occurred_at: r.submitted_at->0@,
                };
            &&& r.state@ == "APPROVED"@ ==> feed_entries(prs, me).contains(shown(ActivityKind::Approved))
            &&& r.state@ == "CHANGES_REQUESTED"@ ==> feed_entries(prs, me).contains(
                shown(ActivityKind::ChangesRequested),
            )
            &&& r.state@ == "APPROVED"@ && feed_entries(prs, me).len() <= FEED_LIMIT ==> feed(
                prs,
                me,
            ).contains(shown(ActivityKind::Approved))
            &&& r.state@ == "CHANGES_REQUESTED"@ && feed_entries(prs, me).len() <= FEED_LIMIT ==> feed(
                prs,
                me,
            ).contains(shown(ActivityKind::ChangesRequested))
        }),
{
    reveal_strlit("APPROVED");
    reveal_strlit("CHANGES_REQUESTED");
    assert("APPROVED"@.len() != "CHANGES_REQUESTED"@.len());
    let pr = prs[p];
    let r = pr.reviews.nodes@[k];
    let head = head_of(pr);
    if r.state@ == "APPROVED"@ || r.state@ == "CHANGES_REQUESTED"@ {
        let kind = if r.state@ == "APPROVED"@ {
            ActivityKind::Approved
        } else {
            ActivityKind::ChangesRequested
        };
        let x = entry(kind, actor_name(r.author), actor_avatar(r.author), head, r.url@, r.submitted_at->0@);
        assert(review_entry(head, me, r)[0] == x);
        lemma_review_in_entries(head, me, pr.reviews.nodes@, k, x);
        let front = merge_entries(pr) + timeline_entries(head, pr.url@, opt_view(pr.merged_at), pr.timeline_items.nodes@)
            + comment_entries(head, me, pr.comments.nodes@);
        lemma_contains_concat(front, review_entries(head, me, pr.reviews.nodes@), x);
        lemma_pull_in_feed(prs, me, p, x);
        lemma_feed_keeps_all_when_few(prs, me, x);
    }
}

proof fn lemma_timeline_in_entries(
    head: Head,
    url: Seq<char>,
    merged_at: Option<Seq<char>>,
    nodes: Seq<TimelineNode>,
    t: int,
    x: ActivityView,
)
    requires
        0 <= t < nodes.len(),
        timeline_entry(head, url, merged_at, nodes[t]).contains(x),
    ensures
        timeline_entries(head, url, merged_at, nodes).contains(x),
    decreases nodes.len(),
{
    let rest = timeline_entries(head, url, merged_at, nodes.drop_last());
    if t < nodes.len() - 1 {
        assert(nodes.drop_last()[t] == nodes[t]);
        lemma_timeline_in_entries(head, url, merged_at, nodes.drop_last(), t, x);
    }
    lemma_contains_concat(rest, timeline_entry(head, url, merged_at, nodes.last()), x);
}

proof fn lemma_comment_in_entries(head: Head, me: Seq<char>, nodes: Seq<CommentNode>, c: int, x: ActivityView)
    requires
        0 <= c < nodes.len(),
        comment_entry(head, me, nodes[c]).contains(x),
    ensures
        comment_entries(head, me, nodes).contains(x),
    decreases nodes.len(),
{
    let rest = comment_entries(head, me, nodes.drop_last());
    if c < nodes.len() - 1 {
        assert(nodes.drop_last()[c] == nodes[c]);
        lemma_comment_in_entries(head, me, nodes.drop_last(), c, x);
    }
    lemma_contains_concat(rest, comment_entry(head, me, nodes.last()), x);
}

proof fn lemma_feed_keeps_all_when_few(prs: Seq<ActivityPull>, me: Seq<char>, x: ActivityView)
    requires
        feed_entries(prs, me).contains(x),
    ensures
        feed_entries(prs, me).len() <= FEED_LIMIT ==> feed(prs, me).contains(x),
{
    broadcast use vstd::seq_lib::group_to_multiset_ensures;

    let all = feed_entries(prs, me);
    lemma_newest_first(all);
    assert(all.to_multiset().count(x) > 0);
}

/// The merge of one of the user's pull requests is in the feed, as a
/// `Merged` entry by whoever merged it at the time it was merged; when the
/// answer holds no more than `FEED_LIMIT` entries, the feed shown holds it
/// too.
pub proof fn law_merges_reach_the_feed(prs: Seq<ActivityPull>, me: Seq<char>, p: int)
    requires
        0 <= p < prs.len(),
        prs[p].merged_at is Some,
    ensures
        ({
            let pr = prs[p];
            let x = ActivityView {
                kind: ActivityKind::Merged,
                actor: actor_name(pr.merged_by),
                avatar_url: actor_avatar(pr.merged_by),
                pr_title: pr.title@,
                repo: pr.repository.name_with_owner@,
                number: pr.number,
                url: pr.url@,
                occurred_at: pr.merged_at->0@,
            };
            &&& feed_entries(prs, me).contains(x)
            &&& feed_entries(prs, me).len() <= FEED_LIMIT ==> feed(prs, me).contains(x)
        }),
{
    let pr = prs[p];
    let head = head_of(pr);
    let x = merge_entries(pr)[0];
    let tail = timeline_entries(head, pr.url@, opt_view(pr.merged_at), pr.timeline_items.nodes@);
    lemma_contains_concat(merge_entries(pr), tail, x);
    lemma_contains_concat(merge_entries(pr) + tail, comment_entries(head, me, pr.comments.nodes@), x);
    lemma_contains_concat(
        merge_entries(pr) + tail + comment_entries(head, me, pr.comments.nodes@),
        review_entries(head, me, pr.reviews.nodes@),
        x,
    );
    lemma_pull_in_feed(prs, me, p, x);
    lemma_feed_keeps_all_when_few(prs, me, x);
}

/// A closing or reopening of one of the user's pull requests, with a time,
/// is in the feed as a `Closed` or `Reopened` entry by its actor at that
/// time, on the pull request's page; a closing at the time of the merge is
/// the merge itself and makes no `Closed` entry.
pub proof fn law_closings_and_reopenings_reach_the_feed(prs: Seq<ActivityPull>, me: Seq<char>, p: int, t: int)
    requires
        0 <= p < prs.len(),
        0 <= t < prs[p].timeline_items.nodes@.len(),
        prs[p].timeline_items.nodes@[t].created_at is Some,
    ensures
        ({
            let pr = prs[p];
            let e = pr.timeline_items.nodes@[t];
            let shown = |kind: ActivityKind|
                ActivityView {
                    kind,
                    actor: actor_name(e.actor),
                    avatar_url: actor_avatar(e.actor),
                    pr_title: pr.title@,
                    repo: pr.repository.name_with_owner@,
                    number: pr.number,
                    url: pr.url@,
                    occurred_at: e.created_at->0@,
                };
            &&& e.typename@ == "ClosedEvent"@ && opt_view(pr.merged_at) != Some(e.created_at->0@)
                ==> feed_entries(prs, me).contains(shown(ActivityKind::Closed))
            &&& e.typename@ == "ReopenedEvent"@ ==> feed_entries(prs, me).contains(shown(ActivityKind::Reopened))
        }),
{
    reveal_strlit("ClosedEvent");
    reveal_strlit("ReopenedEvent");
    assert("ClosedEvent"@.len() != "ReopenedEvent"@.len());
    let pr = prs[p];
    let head = head_of(pr);
    let e = pr.timeline_items.nodes@[t];
    let merged = opt_view(pr.merged_at);
    let own = timeline_entry(head, pr.url@, merged, e);
    if own.len() > 0 {
        let x = own[0];
        lemma_timeline_in_entries(head, pr.url@, merged, pr.timeline_items.nodes@, t, x);
        let tail = timeline_entries(head, pr.url@, merged, pr.timeline_items.nodes@);
        lemma_contains_concat(merge_entries(pr), tail, x);
        lemma_contains_concat(merge_entries(pr) + tail, comment_entries(head, me, pr.comments.nodes@), x);
        lemma_contains_concat(
            merge_entries(pr) + tail + comment_entries(head, me, pr.comments.nodes@),
            review_entries(head, me, pr.reviews.nodes@),
            x,
        );
        lemma_pull_in_feed(prs, me, p, x);
    }
}

/// A comment by someone other than the user, on one of the user's pull
/// requests, is in the feed as a `Comment` entry by its author at the time
/// it was made, on the comment's page.
pub proof fn law_comments_reach_the_feed(prs: Seq<ActivityPull>, me: Seq<char>, p: int, c: int)
    requires
        0 <= p < prs.len(),
        0 <= c < prs[p].comments.nodes@.len(),
        prs[p].comments.nodes@[c].author is Some,
        prs[p].comments.nodes@[c].author->0.login@ != me,
    ensures
        ({
            let pr = prs[p];
            let n = pr.comments.nodes@[c];
            let a = n.author->0;
            let x = ActivityView {
                kind: ActivityKind::Comment,
                actor: display_name(a),
                avatar_url: Some(a.avatar_url@),
                pr_title: pr.title@,
                repo: pr.repository.name_with_owner@,
                number: pr.number,
                url: n.url@,
                occurred_at: n.created_at@,
            };
            &&& feed_entries(prs, me).contains(x)
            &&& feed_entries(prs, me).len() <= FEED_LIMIT ==> feed(prs, me).contains(x)
        }),
{
    let pr = prs[p];
    let head = head_of(pr);
    let x = comment_entry(head, me, pr.comments.nodes@[c])[0];
    lemma_comment_in_entries(head, me, pr.comments.nodes@, c, x);
    let front = merge_entries(pr) + timeline_entries(head, pr.url@, opt_view(pr.merged_at), pr.timeline_items.nodes@);
    lemma_contains_concat(front, comment_entries(head, me, pr.comments.nodes@), x);
    lemma_contains_concat(
        front + comment_entries(head, me, pr.comments.nodes@),
        review_entries(head, me, pr.reviews.nodes@),
        x,
    );
    lemma_pull_in_feed(prs, me, p, x);
    lemma_feed_keeps_all_when_few(prs, me, x);
}

/// The CI status of a pull request of the list follows its check rollup's
/// state: `SUCCESS` passes, `FAILURE` and `ERROR` fail, `PENDING` and
/// `EXPECTED` are pending, and no state means no checks.
pub proof fn law_ci_follows_the_rollup(node: OpenPullNode, p: PullRequest)
    requires
        is_pull_request_of(node, p),
    ensures
        rollup_state(node.status_check_rollup) == Some("SUCCESS"@) ==> p.ci == CiStatus::Success,
        rollup_state(node.status_check_rollup) == Some("FAILURE"@) ==> p.ci == CiStatus::Failure,
        rollup_state(node.status_check_rollup) == Some("ERROR"@) ==> p.ci == CiStatus::Failure,
        rollup_state(node.status_check_rollup) == Some("PENDING"@) ==> p.ci == CiStatus::Pending,
        rollup_state(node.status_check_rollup) == Some("EXPECTED"@) ==> p.ci == CiStatus::Pending,
        rollup_state(node.status_check_rollup) is None ==> p.ci == CiStatus::NoChecks,
{
    reveal_strlit("SUCCESS");
    reveal_strlit("FAILURE");
    reveal_strlit("ERROR");
    reveal_strlit("PENDING");
    reveal_strlit("EXPECTED");
    assert("FAILURE"@[0] != "SUCCESS"@[0]);
    assert("ERROR"@.len() != "SUCCESS"@.len());
}

proof fn lemma_rulesets_required(nodes: Seq<RepositoryRule>)
    ensures
        forall|k: int|
            0 <= k < nodes.len() && (#[trigger] nodes[k]).parameters is Some
                && nodes[k].parameters->0.required_approving_review_count is Some
                ==> nodes[k].parameters->0.required_approving_review_count->0 <= rulesets_required(nodes),
        rulesets_required(nodes) == 0 || exists|k: int|
            0 <= k < nodes.len() && (#[trigger] nodes[k]).parameters is Some
                && nodes[k].parameters->0.required_approving_review_count == Some(rulesets_required(nodes)),
    decreases nodes.len(),
{
    if nodes.len() > 0 {
        let rest = nodes.drop_last();
        lemma_rulesets_required(rest);
        assert forall|k: int|
            0 <= k < nodes.len() && (#[trigger] nodes[k]).parameters is Some
                && nodes[k].parameters->0.required_approving_review_count is Some
            implies nodes[k].parameters->0.required_approving_review_count->0 <= rulesets_required(nodes) by {
            if k < nodes.len() - 1 {
                assert(rest[k] == nodes[k]);
            }
        }
        let m = rulesets_required(nodes);
        if m != 0 && m != rulesets_required(rest) {
            assert(nodes[nodes.len() - 1] == nodes.last());
        } else if m != 0 {
            let k = choose|k: int|
                0 <= k < rest.len() && (#[trigger] rest[k]).parameters is Some
                    && rest[k].parameters->0.required_approving_review_count == Some(rulesets_required(rest));
            assert(rest[k] == nodes[k]);
        }
    }
}

/// The approvals a pull request of the list needs are at least every count
/// its base branch's rules carry (each ruleset rule's, the update rule's, and
/// the protection rule's when it requires approving reviews), and are one of
/// those counts, or 0, or 1 when GitHub's review decision is
/// `REVIEW_REQUIRED`.
pub proof fn law_required_approvals_follow_the_rules(node: OpenPullNode, p: PullRequest)
    requires
        is_pull_request_of(node, p),
        node.base_ref is Some,
    ensures
        ({
            let b = node.base_ref->0;
            let n = p.required_approvals;
            let protection = b.branch_protection_rule;
            let update = b.ref_update_rule;
            &&& protection is Some && protection->0.requires_approving_reviews
                && protection->0.required_approving_review_count is Some
                ==> protection->0.required_approving_review_count->0 <= n
            &&& update is Some && update->0.required_approving_review_count is Some
                ==> update->0.required_approving_review_count->0 <= n
            &&& forall|k: int|
                b.rules is Some && 0 <= k < b.rules->0.nodes@.len()
                    && (#[trigger] b.rules->0.nodes@[k]).parameters is Some
                    && b.rules->0.nodes@[k].parameters->0.required_approving_review_count is Some
                    ==> b.rules->0.nodes@[k].parameters->0.required_approving_review_count->0 <= n
            &&& {
                ||| n == 0
                ||| n == 1 && opt_view(node.review_decision) == Some("REVIEW_REQUIRED"@)
                ||| protection is Some && protection->0.requires_approving_reviews
                    && protection->0.required_approving_review_count == Some(n)
                ||| update is Some && update->0.required_approving_review_count == Some(n)
                ||| b.rules is Some && exists|k: int|
                    0 <= k < b.rules->0.nodes@.len()
                        && (#[trigger] b.rules->0.nodes@[k]).parameters is Some
                        && b.rules->0.nodes@[k].parameters->0.required_approving_review_count == Some(n)
            }
        }),
{
    let b = node.base_ref->0;
    if b.rules is Some {
        lemma_rulesets_required(b.rules->0.nodes@);
    }
}

// ---------------------------------------------------------------------------
// Closing a pull request
// ---------------------------------------------------------------------------

/// GitHub's answer to the mutation that closes a pull request; `has_data`
/// says whether it carried data.
pub struct CloseResponse {
    pub has_data: bool,
    pub message: Option<String>,
    pub errors: Option<Vec<GraphqlError>>,
}

/// `close_pull_request`'s reading of the answer: GraphQL errors win; without
/// data, the answer's message (or `"empty response"`); else it worked.
pub fn close_result(resp: CloseResponse) -> (r: Result<(), DataSourceError>)
    ensures
        match graphql_failure(opt_seq(resp.errors), resp.has_data, opt_view(resp.message)) {
            Some(m) => r is Err && r->Err_0.message_view() == m && !r->Err_0.ended(),
            None => r is Ok,
        },
{
    match graphql_error(&resp.errors, resp.has_data, resp.message) {
        Some(e) => Err(e),
        None => Ok(()),
    }
}

// ---------------------------------------------------------------------------
// OAuth App access restrictions
// ---------------------------------------------------------------------------

/// The index of the first `/` in `s`.
pub open spec fn first_slash(s: Seq<char>, i: int) -> bool {
    0 <= i < s.len() && s[i] == '/' && forall|j: int| 0 <= j < i ==> s[j] != '/'
}

/// `split_once('/')`: the owner and the name of `"owner/name"`, split at the
/// first `/`; `None` without one.
pub fn split_repo(name_with_owner: &str) -> (r: Option<(String, String)>)
    ensures
        match r {
            Some((owner, name)) => exists|i: int|
                first_slash(name_with_owner@, i) && owner@ == name_with_owner@.take(i) && name@
                    == name_with_owner@.skip(i + 1),
            None => forall|j: int| 0 <= j < name_with_owner@.len() ==> name_with_owner@[j] != '/',
        },
{
    let chars = chars_of(name_with_owner);
    match find_char(&chars, '/') {
        Some(i) => {
            let owner = slice_chars(&chars, 0, i);
            let name = slice_chars(&chars, i + 1, chars.len());
            assert(owner@ =~= name_with_owner@.take(i as int));
            assert(name@ =~= name_with_owner@.skip(i + 1));
            assert(first_slash(name_with_owner@, i as int));
            Some((string_from_chars(&owner), string_from_chars(&name)))
        },
        None => None,
    }
}

/// The REST address of the user's permission on a repository.
pub open spec fn permission_url_text(owner: Seq<char>, name: Seq<char>, login: Seq<char>) -> Seq<char> {
    "https://api.github.com/repos/"@ + owner + "/"@ + name + "/collaborators/"@ + login + "/permission"@
}

/// The request to make once the user's login is known: none when the user
/// owns the repository (its owner is the login, ignoring ASCII case), else
/// the address of the user's permission on it.
pub fn permission_request(owner: &str, name: &str, login: &str) -> (r: Option<String>)
    ensures
        lower_seq(owner@) == lower_seq(login@) ==> r is None,
        lower_seq(owner@) != lower_seq(login@) ==> r is Some && r->0@ == permission_url_text(
            owner@,
            name@,
            login@,
        ),
{
    if eq_ignore_ascii_case(owner, login) {
        return None;
    }
    let mut url = concat3("https://api.github.com/repos/", owner, "/");
    url.append(name);
    url.append("/collaborators/");
    url.append(login);
    url.append("/permission");
    Some(url)
}

/// The answer about the user's permission says the repository's
/// organization restricts OAuth Apps: the body says so, or, for a 403, the
/// message of the decoded error body does (`parsed` is `None` when the body
/// did not decode).
pub open spec fn restricted_answer(status: u16, body: Seq<char>, parsed: Option<Option<Seq<char>>>) -> bool {
    oauth_restricted(body) || (status == 403 && match parsed {
        Some(Some(m)) => oauth_restricted(m),
        _ => false,
    })
}

pub open spec fn opt_opt_view(p: Option<Option<String>>) -> Option<Option<Seq<char>>> {
    match p {
        Some(m) => Some(opt_view(m)),
        None => None,
    }
}

/// `oauth_app_restricted_from_repo`'s reading of the permission answer.
pub fn restricted_from_answer(status: u16, body: &str, parsed: Option<Option<String>>) -> (b: bool)
    ensures
        b == restricted_answer(status, body@, opt_opt_view(parsed)),
{
    if is_oauth_app_restricted_message(body) {
        return true;
    }
    if status == 403 {
        match parsed {
            Some(Some(m)) => is_oauth_app_restricted_message(m.as_str()),
            _ => false,
        }
    } else {
        false
    }
}

} // verus!
