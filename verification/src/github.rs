//! GitHub's device login flow and its search of one's pull requests: the
//! values GitHub answers with, and how each answer is read.
//!
//! The JSON documents GitHub sends are decoded into the plain records of this
//! module (`DeviceCodeResponse`, `TokenBody`, `GraphqlBody`, ...) outside the
//! library; every decision on their contents is made here.

use vstd::prelude::*;

use crate::pulls::PullView;
use crate::session::{opt_view, Tokens};
use crate::text::{concat3, owned, string_from_chars};

verus! {

broadcast use vstd::string::group_string_axioms;

/// The OAuth app's client id.
pub const GITHUB_CLIENT_ID: &'static str = "Ov23li14mBVzqgdBi3HH";

/// The least polling interval GitHub accepts, in seconds.
pub const MIN_POLL_INTERVAL: u64 = 5;

/// A failure talking to GitHub, with a message for the user.
#[derive(Debug, PartialEq, Eq)]
pub struct GithubError {
    message: String,
}

impl GithubError {
    /// The message, as characters.
    pub closed spec fn message_view(&self) -> Seq<char> {
        self.message@
    }

    pub fn new(message: &str) -> (e: Self)
        ensures
            e.message_view() == message@,
    {
        Self { message: owned(message) }
    }

    fn from_string(message: String) -> (e: Self)
        ensures
            e.message_view() == message@,
    {
        Self { message }
    }

    pub fn message(&self) -> (m: &str)
        ensures
            m@ == self.message_view(),
    {
        self.message.as_str()
    }
}

/// What the device flow shows the user.
#[derive(Debug, PartialEq, Eq)]
pub struct DeviceCode {
    pub device_code: String,
    pub user_code: String,
    pub verification_uri: String,
    pub interval_secs: u64,
}

/// One answer while waiting for the user to approve the device.
#[derive(Debug, PartialEq, Eq)]
pub enum DevicePoll {
    Pending,
    SlowDown,
    Approved(Tokens),
    Denied,
    Expired,
}

/// One pull request as the search returns it.
#[derive(Debug, PartialEq, Eq)]
pub struct RemotePull {
    pub id: String,
    pub number: i64,
    pub title: String,
    pub state: String,
    pub url: String,
    pub repository: String,
    pub author: String,
    pub updated_at: String,
    pub ci: String,
    pub approvals: i64,
    pub required_approvals: i64,
    pub has_conflicts: bool,
}

impl View for RemotePull {
    type V = PullView;

    open spec fn view(&self) -> PullView {
        PullView {
            id: self.id@,
            number: self.number,
            title: self.title@,
            state: self.state@,
            url: self.url@,
            repository: self.repository@,
            author: self.author@,
            updated_at: self.updated_at@,
            ci: self.ci@,
            approvals: self.approvals,
            required_approvals: self.required_approvals,
            has_conflicts: self.has_conflicts,
        }
    }
}

/// One page of search results.
#[derive(Debug, PartialEq, Eq)]
pub struct PullPage {
    pub pulls: Vec<RemotePull>,
    pub has_next_page: bool,
    pub end_cursor: Option<String>,
}

/// A cursor argument as characters.
pub open spec fn cursor_view(cursor: Option<&str>) -> Option<Seq<char>> {
    match cursor {
        Some(c) => Some(c@),
        None => None,
    }
}

/// GitHub as the app uses it. Implementations talk to GitHub or stand in for
/// it. Each one says, through `may_answer`, which answers a search can get
/// from it; one that talks to GitHub can promise nothing narrower than any
/// answer.
pub trait Github {
    /// Whether `answer` is an answer this GitHub may give the search for
    /// `query` with `token` after `cursor`; by default, any answer.
    closed spec fn may_answer(
        &self,
        token: Seq<char>,
        query: Seq<char>,
        cursor: Option<Seq<char>>,
        answer: Result<PullPage, GithubError>,
    ) -> bool {
        true
    }

    fn start_device_flow(&self) -> Result<DeviceCode, GithubError>;

    fn poll_device_flow(&self, device_code: &str) -> Result<DevicePoll, GithubError>;

    fn refresh(&self, refresh_token: &str) -> Result<Tokens, GithubError>;

    fn authored_pulls(&self, token: &str, query: &str, cursor: Option<&str>) -> (r: Result<
        PullPage,
        GithubError,
    >)
        ensures
            self.may_answer(token@, query@, cursor_view(cursor), r),
    ;
}

/// A stand-in for GitHub: a fixed device code, a poll that stays pending,
/// a fixed token refresh and empty search results.
pub struct FakeGithub {
    device_code: DeviceCode,
    poll: DevicePoll,
    refreshed: Tokens,
}

impl FakeGithub {
    /// The tokens every refresh returns.
    pub closed spec fn refreshed(&self) -> Tokens {
        self.refreshed
    }

    /// The device code every start of the flow returns.
    pub closed spec fn device_code(&self) -> DeviceCode {
        self.device_code
    }

    /// The answer every poll of the flow gets.
    pub closed spec fn poll(&self) -> DevicePoll {
        self.poll
    }

    pub fn with_refresh(tokens: Tokens) -> (g: Self)
        ensures
            g.refreshed() == tokens,
            g.device_code().device_code@ == "device"@,
            g.device_code().user_code@ == "ABCD-1234"@,
            g.device_code().verification_uri@ == "https://github.com/login/device"@,
            g.device_code().interval_secs == 5,
            g.poll() == DevicePoll::Pending,
    {
        Self {
            device_code: DeviceCode {
                device_code: owned("device"),
                user_code: owned("ABCD-1234"),
                verification_uri: owned("https://github.com/login/device"),
                interval_secs: 5,
            },
            poll: DevicePoll::Pending,
            refreshed: tokens,
        }
    }
}

impl Github for FakeGithub {
    /// The stand-in answers every search with one empty, last page.
    open spec fn may_answer(
        &self,
        token: Seq<char>,
        query: Seq<char>,
        cursor: Option<Seq<char>>,
        answer: Result<PullPage, GithubError>,
    ) -> bool {
        &&& answer is Ok
        &&& answer->Ok_0.pulls@.len() == 0
        &&& !answer->Ok_0.has_next_page
        &&& answer->Ok_0.end_cursor is None
    }

    fn start_device_flow(&self) -> (r: Result<DeviceCode, GithubError>)
        ensures
            r == Ok::<DeviceCode, GithubError>(self.device_code()),
    {
        Ok(
            DeviceCode {
                device_code: self.device_code.device_code.clone(),
                user_code: self.device_code.user_code.clone(),
                verification_uri: self.device_code.verification_uri.clone(),
                interval_secs: self.device_code.interval_secs,
            },
        )
    }

    fn poll_device_flow(&self, _device_code: &str) -> (r: Result<DevicePoll, GithubError>)
        ensures
            r == Ok::<DevicePoll, GithubError>(self.poll()),
    {
        Ok(
            match &self.poll {
                DevicePoll::Pending => DevicePoll::Pending,
                DevicePoll::SlowDown => DevicePoll::SlowDown,
                DevicePoll::Approved(t) => DevicePoll::Approved(t.clone()),
                DevicePoll::Denied => DevicePoll::Denied,
                DevicePoll::Expired => DevicePoll::Expired,
            },
        )
    }

    fn refresh(&self, _refresh_token: &str) -> (r: Result<Tokens, GithubError>)
        ensures
            r == Ok::<Tokens, GithubError>(self.refreshed()),
    {
        Ok(self.refreshed.clone())
    }

    fn authored_pulls(&self, _token: &str, _query: &str, _cursor: Option<&str>) -> (r: Result<
        PullPage,
        GithubError,
    >)
        ensures
            r is Ok,
            r->Ok_0.pulls@.len() == 0,
            !r->Ok_0.has_next_page,
            r->Ok_0.end_cursor is None,
    {
        Ok(PullPage { pulls: Vec::new(), has_next_page: false, end_cursor: None })
    }
}

// ---------------------------------------------------------------------------
// The device code answer
// ---------------------------------------------------------------------------

/// GitHub's answer to the start of the device flow.
pub struct DeviceCodeResponse {
    pub device_code: String,
    pub user_code: String,
    pub verification_uri: String,
    pub interval: Option<u64>,
}

/// The polling interval: GitHub's, or 5 seconds when absent, and never less
/// than 5 seconds.
pub open spec fn poll_interval(interval: Option<u64>) -> u64 {
    match interval {
        Some(i) => if i > MIN_POLL_INTERVAL {
            i
        } else {
            MIN_POLL_INTERVAL
        },
        None => MIN_POLL_INTERVAL,
    }
}

/// The device code shown to the user, from GitHub's answer.
pub fn device_code_from(resp: DeviceCodeResponse) -> (code: DeviceCode)
    ensures
        code.device_code == resp.device_code,
        code.user_code == resp.user_code,
        code.verification_uri == resp.verification_uri,
        code.interval_secs == poll_interval(resp.interval),
{
    let interval = match resp.interval {
        Some(i) => i,
        None => MIN_POLL_INTERVAL,
    };
    DeviceCode {
        device_code: resp.device_code,
        user_code: resp.user_code,
        verification_uri: resp.verification_uri,
        interval_secs: if interval > MIN_POLL_INTERVAL {
            interval
        } else {
            MIN_POLL_INTERVAL
        },
    }
}

// ---------------------------------------------------------------------------
// The token answer
// ---------------------------------------------------------------------------

/// GitHub's answer to a token request: tokens, or an error code.
pub struct TokenBody {
    pub access_token: Option<String>,
    pub refresh_token: Option<String>,
    pub error: Option<String>,
    pub error_description: Option<String>,
}

/// What a token answer means.
#[derive(Debug, PartialEq, Eq)]
pub enum TokenResponse {
    Tokens(Tokens),
    Error(DevicePoll),
}

/// The value of a token answer's meaning: tokens, a waiting state, or an
/// error message.
pub enum TokenOutcome {
    Tokens(Seq<char>, Option<Seq<char>>),
    Pending,
    SlowDown,
    Denied,
    Expired,
    Failed(Seq<char>),
}

/// How a token answer is read: a non-empty access token wins, with the
/// refresh token kept only when non-empty; otherwise the error code names a
/// waiting state, or else the description (or the code) is the error; with
/// neither, the answer is an error too.
pub open spec fn token_outcome(body: TokenBody) -> TokenOutcome {
    if body.access_token is Some && body.access_token->0@.len() > 0 {
        TokenOutcome::Tokens(
            body.access_token->0@,
            match body.refresh_token {
                Some(r) => if r@.len() > 0 {
                    Some(r@)
                } else {
                    None
                },
                None => None,
            },
        )
    } else {
        match body.error {
            Some(e) => if e@ == "authorization_pending"@ {
                TokenOutcome::Pending
            } else if e@ == "slow_down"@ {
                TokenOutcome::SlowDown
            } else if e@ == "access_denied"@ {
                TokenOutcome::Denied
            } else if e@ == "expired_token"@ {
                TokenOutcome::Expired
            } else {
                TokenOutcome::Failed(
                    match body.error_description {
                        Some(d) => d@,
                        None => e@,
                    },
                )
            },
            None => TokenOutcome::Failed("token response had no access token"@),
        }
    }
}

/// The outcome that a read token answer stands for.
pub open spec fn response_outcome(r: Result<TokenResponse, GithubError>) -> TokenOutcome {
    match r {
        Ok(TokenResponse::Tokens(t)) => TokenOutcome::Tokens(t.access_token@, opt_view(t.refresh_token)),
        Ok(TokenResponse::Error(DevicePoll::Pending)) => TokenOutcome::Pending,
        Ok(TokenResponse::Error(DevicePoll::SlowDown)) => TokenOutcome::SlowDown,
        Ok(TokenResponse::Error(DevicePoll::Denied)) => TokenOutcome::Denied,
        Ok(TokenResponse::Error(DevicePoll::Expired)) => TokenOutcome::Expired,
        Ok(TokenResponse::Error(DevicePoll::Approved(t))) => TokenOutcome::Tokens(
            t.access_token@,
            opt_view(t.refresh_token),
        ),
        Err(e) => TokenOutcome::Failed(e.message_view()),
    }
}

fn non_empty_string(s: Option<String>) -> (r: Option<String>)
    ensures
        opt_view(r) == match s {
            Some(t) => if t@.len() > 0 {
                Some(t@)
            } else {
                None
            },
            None => None,
        },
{
    match s {
        Some(t) => if t.as_str().is_empty() {
            None
        } else {
            Some(t)
        },
        None => None,
    }
}

/// Reads a token answer.
pub fn token_response(body: TokenBody) -> (r: Result<TokenResponse, GithubError>)
    ensures
        response_outcome(r) == token_outcome(body),
        r is Ok ==> !(r->Ok_0 is Error && r->Ok_0->Error_0 is Approved),
{
    let ghost b = body;
    let access = non_empty_string(body.access_token);
    if let Some(access_token) = access {
        return Ok(
            TokenResponse::Tokens(
                Tokens { access_token, refresh_token: non_empty_string(body.refresh_token) },
            ),
        );
    }
    proof {
        reveal_strlit("authorization_pending");
        reveal_strlit("slow_down");
        reveal_strlit("access_denied");
        reveal_strlit("expired_token");
    }
    match body.error {
        Some(error) => {
            if error == owned("authorization_pending") {
                Ok(TokenResponse::Error(DevicePoll::Pending))
            } else if error == owned("slow_down") {
                Ok(TokenResponse::Error(DevicePoll::SlowDown))
            } else if error == owned("access_denied") {
                Ok(TokenResponse::Error(DevicePoll::Denied))
            } else if error == owned("expired_token") {
                Ok(TokenResponse::Error(DevicePoll::Expired))
            } else {
                match body.error_description {
                    Some(d) => Err(GithubError::from_string(d)),
                    None => Err(GithubError::from_string(error)),
                }
            }
        },
        None => Err(GithubError::new("token response had no access token")),
    }
}

/// A poll's answer: approved with tokens, or the waiting state. An error
/// answer stays an error.
pub fn poll_result(r: Result<TokenResponse, GithubError>) -> (p: Result<DevicePoll, GithubError>)
    ensures
        match (r, p) {
            (Ok(TokenResponse::Tokens(t)), Ok(DevicePoll::Approved(u))) => t == u,
            (Ok(TokenResponse::Error(e)), Ok(q)) => e == q,
            (Err(e), Err(f)) => e == f,
            _ => false,
        },
{
    match r {
        Ok(TokenResponse::Tokens(tokens)) => Ok(DevicePoll::Approved(tokens)),
        Ok(TokenResponse::Error(error)) => Ok(error),
        Err(e) => Err(e),
    }
}

/// A refresh's answer: the new tokens; a waiting state is an error named
/// after GitHub's error code.
pub fn refresh_result(r: Result<TokenResponse, GithubError>) -> (t: Result<Tokens, GithubError>)
    ensures
        match r {
            Ok(TokenResponse::Tokens(tokens)) => t == Ok::<Tokens, GithubError>(tokens),
            Ok(TokenResponse::Error(DevicePoll::Pending)) => t is Err && t->Err_0.message_view()
                == "authorization_pending"@,
            Ok(TokenResponse::Error(DevicePoll::SlowDown)) => t is Err && t->Err_0.message_view()
                == "slow_down"@,
            Ok(TokenResponse::Error(DevicePoll::Denied)) => t is Err && t->Err_0.message_view()
                == "access_denied"@,
            Ok(TokenResponse::Error(DevicePoll::Expired)) => t is Err && t->Err_0.message_view()
                == "expired_token"@,
            Ok(TokenResponse::Error(DevicePoll::Approved(_))) => t is Err && t->Err_0.message_view()
                == "unexpected token response"@,
            Err(e) => t == Err::<Tokens, GithubError>(e),
        },
{
    match r {
        Ok(TokenResponse::Tokens(tokens)) => Ok(tokens),
        Ok(TokenResponse::Error(DevicePoll::Pending)) => Err(GithubError::new("authorization_pending")),
        Ok(TokenResponse::Error(DevicePoll::SlowDown)) => Err(GithubError::new("slow_down")),
        Ok(TokenResponse::Error(DevicePoll::Denied)) => Err(GithubError::new("access_denied")),
        Ok(TokenResponse::Error(DevicePoll::Expired)) => Err(GithubError::new("expired_token")),
        Ok(TokenResponse::Error(DevicePoll::Approved(_))) => Err(
            GithubError::new("unexpected token response"),
        ),
        Err(e) => Err(e),
    }
}

// ---------------------------------------------------------------------------
// The search answer
// ---------------------------------------------------------------------------

/// GitHub's GraphQL answer to the search.
pub struct GraphqlBody {
    pub data: Option<GraphqlData>,
    pub errors: Option<Vec<GraphqlError>>,
}

pub struct GraphqlData {
    pub search: Option<SearchData>,
}

pub struct GraphqlError {
    pub message: String,
}

pub struct SearchData {
    pub page_info: PageInfo,
    pub nodes: Vec<Option<PullNode>>,
}

pub struct PageInfo {
    pub has_next_page: bool,
    pub end_cursor: Option<String>,
}

pub struct PullNode {
    pub id: String,
    pub number: i64,
    pub title: String,
    pub state: String,
    pub is_draft: bool,
    pub url: String,
    pub updated_at: String,
    pub author: Option<AuthorNode>,
    pub repository: Option<RepositoryNode>,
    pub mergeable: Option<String>,
    pub review_decision: Option<String>,
    pub status_check_rollup: Option<StatusCheckRollup>,
    pub latest_opinionated_reviews: Option<ReviewConnection>,
    pub base_ref: Option<BaseRef>,
}

pub struct StatusCheckRollup {
    pub state: Option<String>,
}

pub struct ReviewConnection {
    pub nodes: Vec<Option<ReviewNode>>,
}

pub struct ReviewNode {
    pub state: String,
}

pub struct BaseRef {
    pub branch_protection_rule: Option<BranchProtectionRule>,
    pub ref_update_rule: Option<RefUpdateRule>,
    pub rules: Option<RuleConnection>,
}

pub struct BranchProtectionRule {
    pub requires_approving_reviews: bool,
    pub required_approving_review_count: Option<i64>,
}

pub struct RefUpdateRule {
    pub required_approving_review_count: Option<i64>,
}

pub struct RuleConnection {
    pub nodes: Vec<Option<RepositoryRule>>,
}

pub struct RepositoryRule {
    pub parameters: Option<PullRequestRuleParameters>,
}

pub struct PullRequestRuleParameters {
    pub required_approving_review_count: Option<i64>,
}

pub struct AuthorNode {
    pub login: String,
}

pub struct RepositoryNode {
    pub name_with_owner: String,
}

/// The CI state name for a status rollup state.
pub open spec fn ci_status_spec(state: Option<Seq<char>>) -> Seq<char> {
    match state {
        Some(s) => if s == "SUCCESS"@ {
            "success"@
        } else if s == "FAILURE"@ || s == "ERROR"@ {
            "failure"@
        } else if s == "PENDING"@ || s == "EXPECTED"@ {
            "pending"@
        } else {
            "none"@
        },
        None => "none"@,
    }
}

/// The CI state name for a status rollup state.
pub fn ci_status(state: Option<&str>) -> (s: String)
    ensures
        s@ == ci_status_spec(
            match state {
                Some(x) => Some(x@),
                None => None,
            },
        ),
{
    proof {
        reveal_strlit("SUCCESS");
        reveal_strlit("FAILURE");
        reveal_strlit("ERROR");
        reveal_strlit("PENDING");
        reveal_strlit("EXPECTED");
    }
    match state {
        Some(s) => {
            let s = owned(s);
            if s == owned("SUCCESS") {
                owned("success")
            } else if s == owned("FAILURE") || s == owned("ERROR") {
                owned("failure")
            } else if s == owned("PENDING") || s == owned("EXPECTED") {
                owned("pending")
            } else {
                owned("none")
            }
        },
        None => owned("none"),
    }
}

/// The largest count among the rules that carry one, if any rule does.
pub open spec fn ruleset_max(nodes: Seq<Option<RepositoryRule>>) -> Option<i64>
    decreases nodes.len(),
{
    if nodes.len() == 0 {
        None
    } else {
        let rest = ruleset_max(nodes.drop_last());
        let here = match nodes.last() {
            Some(rule) => match rule.parameters {
                Some(p) => p.required_approving_review_count,
                None => None,
            },
            None => None,
        };
        match (rest, here) {
            (Some(a), Some(b)) => Some(if b >= a { b } else { a }),
            (Some(a), None) => Some(a),
            (None, h) => h,
        }
    }
}

pub open spec fn max_i64(a: i64, b: i64) -> i64 {
    if b >= a {
        b
    } else {
        a
    }
}

/// Approvals the base branch's rules demand: the largest of the branch
/// protection count (when approving reviews are required), the update rule's
/// count and the rulesets' largest count, each 0 when absent.
pub open spec fn rule_approvals(base_ref: Option<BaseRef>) -> i64 {
    match base_ref {
        None => 0,
        Some(b) => {
            let from_protection = match b.branch_protection_rule {
                Some(rule) => if rule.requires_approving_reviews {
                    match rule.required_approving_review_count {
                        Some(c) => c,
                        None => 0,
                    }
                } else {
                    0
                },
                None => 0,
            };
            let from_update_rule = match b.ref_update_rule {
                Some(rule) => match rule.required_approving_review_count {
                    Some(c) => c,
                    None => 0,
                },
                None => 0,
            };
            let from_rulesets = match b.rules {
                Some(rules) => match ruleset_max(rules.nodes@) {
                    Some(m) => m,
                    None => 0,
                },
                None => 0,
            };
            max_i64(max_i64(from_protection, from_update_rule), from_rulesets)
        },
    }
}

/// Approvals a pull request needs: what the rules demand, or 1 when they
/// demand none and GitHub says a review is required.
pub open spec fn required_approvals_spec(base_ref: Option<BaseRef>, review_decision: Option<Seq<char>>) -> i64 {
    let from_rules = rule_approvals(base_ref);
    if from_rules == 0 && review_decision == Some("REVIEW_REQUIRED"@) {
        1
    } else {
        from_rules
    }
}

fn rulesets_max(nodes: &Vec<Option<RepositoryRule>>) -> (m: Option<i64>)
    ensures
        m == ruleset_max(nodes@),
{
    let mut best: Option<i64> = None;
    let mut i: usize = 0;
    while i < nodes.len()
        invariant
            i <= nodes.len(),
            best == ruleset_max(nodes@.take(i as int)),
        decreases nodes.len() - i,
    {
        proof {
            assert(nodes@.take(i + 1).drop_last() =~= nodes@.take(i as int));
        }
        let here = match &nodes[i] {
            Some(rule) => match &rule.parameters {
                Some(p) => p.required_approving_review_count,
                None => None,
            },
            None => None,
        };
        best = match (best, here) {
            (Some(a), Some(b)) => Some(if b >= a { b } else { a }),
            (Some(a), None) => Some(a),
            (None, h) => h,
        };
        i = i + 1;
    }
    assert(nodes@.take(nodes@.len() as int) =~= nodes@);
    best
}

/// Approvals a pull request needs.
pub fn required_approvals(base_ref: Option<&BaseRef>, review_decision: Option<&str>) -> (n: i64)
    ensures
        n == required_approvals_spec(
            match base_ref {
                Some(b) => Some(*b),
                None => None,
            },
            match review_decision {
                Some(d) => Some(d@),
                None => None,
            },
        ),
{
    let from_rules = match base_ref {
        None => 0,
        Some(b) => {
            let from_protection = match &b.branch_protection_rule {
                Some(rule) => if rule.requires_approving_reviews {
                    match rule.required_approving_review_count {
                        Some(c) => c,
                        None => 0,
                    }
                } else {
                    0
                },
                None => 0,
            };
            let from_update_rule = match &b.ref_update_rule {
                Some(rule) => match rule.required_approving_review_count {
                    Some(c) => c,
                    None => 0,
                },
                None => 0,
            };
            let from_rulesets = match &b.rules {
                Some(rules) => match rulesets_max(&rules.nodes) {
                    Some(m) => m,
                    None => 0,
                },
                None => 0,
            };
            let first = if from_update_rule >= from_protection {
                from_update_rule
            } else {
                from_protection
            };
            if from_rulesets >= first {
                from_rulesets
            } else {
                first
            }
        },
    };
    proof {
        reveal_strlit("REVIEW_REQUIRED");
    }
    let review_required = match review_decision {
        Some(d) => owned(d) == owned("REVIEW_REQUIRED"),
        None => false,
    };
    if from_rules == 0 && review_required {
        1
    } else {
        from_rules
    }
}

/// The number of reviews whose state is `APPROVED`.
pub open spec fn approved_count(nodes: Seq<Option<ReviewNode>>) -> nat
    decreases nodes.len(),
{
    if nodes.len() == 0 {
        0
    } else {
        approved_count(nodes.drop_last()) + match nodes.last() {
            Some(r) => if r.state@ == "APPROVED"@ {
                1nat
            } else {
                0nat
            },
            None => 0nat,
        }
    }
}

fn count_approved(nodes: &Vec<Option<ReviewNode>>) -> (n: i64)
    ensures
        n == approved_count(nodes@) as i64,
{
    proof {
        reveal_strlit("APPROVED");
    }
    let approved = owned("APPROVED");
    let mut count: usize = 0;
    let mut i: usize = 0;
    while i < nodes.len()
        invariant
            i <= nodes.len(),
            approved@ == "APPROVED"@,
            count == approved_count(nodes@.take(i as int)),
            count <= i,
        decreases nodes.len() - i,
    {
        proof {
            assert(nodes@.take(i + 1).drop_last() =~= nodes@.take(i as int));
        }
        let hit = match &nodes[i] {
            Some(r) => r.state == approved,
            None => false,
        };
        if hit {
            count = count + 1;
        }
        i = i + 1;
    }
    assert(nodes@.take(nodes@.len() as int) =~= nodes@);
    count as i64
}

/// The state name of a pull request: merged, closed, draft or open; an
/// unknown GitHub state has none.
pub open spec fn pull_state(state: Seq<char>, is_draft: bool) -> Option<Seq<char>> {
    if state == "MERGED"@ {
        Some("merged"@)
    } else if state == "CLOSED"@ {
        Some("closed"@)
    } else if state == "OPEN"@ {
        if is_draft {
            Some("draft"@)
        } else {
            Some("open"@)
        }
    } else {
        None
    }
}

/// The message for a state GitHub sent that the app does not know.
pub open spec fn unknown_state_message(state: Seq<char>) -> Seq<char> {
    "unknown pull request state: "@ + state
}

/// `p` is the row read from `node` (whose state is known).
pub open spec fn pull_from_node(node: PullNode, p: PullView) -> bool {
    &&& pull_state(node.state@, node.is_draft) == Some(p.state)
    &&& p.id == node.id@
    &&& p.number == node.number
    &&& p.title == node.title@
    &&& p.url == node.url@
    &&& p.updated_at == node.updated_at@
    &&& p.repository == match node.repository {
        Some(r) => r.name_with_owner@,
        None => Seq::<char>::empty(),
    }
    &&& p.author == match node.author {
        Some(a) => a.login@,
        None => Seq::<char>::empty(),
    }
    &&& p.ci == ci_status_spec(
        match node.status_check_rollup {
            Some(r) => match r.state {
                Some(s) => Some(s@),
                None => None,
            },
            None => None,
        },
    )
    &&& p.approvals == match node.latest_opinionated_reviews {
        Some(reviews) => approved_count(reviews.nodes@) as i64,
        None => 0,
    }
    &&& p.required_approvals == required_approvals_spec(
        node.base_ref,
        match node.review_decision {
            Some(d) => Some(d@),
            None => None,
        },
    )
    &&& p.has_conflicts == (node.mergeable is Some && node.mergeable->0@ == "CONFLICTING"@)
}

/// Reads one search result.
pub fn remote_pull(node: PullNode) -> (r: Result<RemotePull, GithubError>)
    ensures
        match r {
            Ok(p) => pull_from_node(node, p@),
            Err(e) => pull_state(node.state@, node.is_draft) is None && e.message_view()
                == unknown_state_message(node.state@),
        },
{
    let ghost n = node;
    proof {
        reveal_strlit("MERGED");
        reveal_strlit("CLOSED");
        reveal_strlit("OPEN");
        reveal_strlit("CONFLICTING");
    }
    let state = if node.state == owned("MERGED") {
        owned("merged")
    } else if node.state == owned("CLOSED") {
        owned("closed")
    } else if node.state == owned("OPEN") {
        if node.is_draft {
            owned("draft")
        } else {
            owned("open")
        }
    } else {
        let mut message = owned("unknown pull request state: ");
        message.append(node.state.as_str());
        return Err(GithubError::from_string(message));
    };
    let ci = match &node.status_check_rollup {
        Some(rollup) => match &rollup.state {
            Some(s) => ci_status(Some(s.as_str())),
            None => ci_status(None),
        },
        None => ci_status(None),
    };
    let approvals = match &node.latest_opinionated_reviews {
        Some(reviews) => count_approved(&reviews.nodes),
        None => 0,
    };
    let required = required_approvals(
        match &node.base_ref {
            Some(b) => Some(b),
            None => None,
        },
        match &node.review_decision {
            Some(d) => Some(d.as_str()),
            None => None,
        },
    );
    let has_conflicts = match &node.mergeable {
        Some(m) => *m == owned("CONFLICTING"),
        None => false,
    };
    let repository = match node.repository {
        Some(repo) => repo.name_with_owner,
        None => String::new(),
    };
    let author = match node.author {
        Some(a) => a.login,
        None => String::new(),
    };
    Ok(
        RemotePull {
            id: node.id,
            number: node.number,
            title: node.title,
            state,
            url: node.url,
            repository,
            author,
            updated_at: node.updated_at,
            ci,
            approvals,
            required_approvals: required,
            has_conflicts,
        },
    )
}

/// The count a ruleset rule carries, if any.
pub open spec fn rule_count(rule: Option<RepositoryRule>) -> Option<i64> {
    match rule {
        Some(r) => match r.parameters {
            Some(p) => p.required_approving_review_count,
            None => None,
        },
        None => None,
    }
}

proof fn lemma_ruleset_max(nodes: Seq<Option<RepositoryRule>>)
    ensures
        forall|k: int|
            0 <= k < nodes.len() && rule_count(#[trigger] nodes[k]) is Some ==> ruleset_max(nodes) is Some
                && rule_count(nodes[k])->0 <= ruleset_max(nodes)->0,
        ruleset_max(nodes) is Some ==> exists|k: int|
            0 <= k < nodes.len() && rule_count(#[trigger] nodes[k]) == ruleset_max(nodes),
    decreases nodes.len(),
{
    if nodes.len() > 0 {
        let rest = nodes.drop_last();
        lemma_ruleset_max(rest);
        assert(rule_count(nodes.last()) == rule_count(nodes[nodes.len() - 1]));
        assert forall|k: int| 0 <= k < nodes.len() && rule_count(#[trigger] nodes[k]) is Some implies ruleset_max(
            nodes,
        ) is Some && rule_count(nodes[k])->0 <= ruleset_max(nodes)->0 by {
            if k < nodes.len() - 1 {
                assert(rest[k] == nodes[k]);
            }
        }
        if ruleset_max(nodes) is Some && ruleset_max(nodes) != rule_count(nodes.last()) {
            let k = choose|k: int| 0 <= k < rest.len() && rule_count(#[trigger] rest[k]) == ruleset_max(rest);
            assert(rest[k] == nodes[k]);
        }
    }
}

/// A row's CI state follows its check rollup's state: `SUCCESS` reads as
/// `success`, `FAILURE` and `ERROR` as `failure`, `PENDING` and `EXPECTED`
/// as `pending`, and no state as `none`.
pub proof fn law_row_ci_follows_the_rollup(node: PullNode, p: PullView)
    requires
        pull_from_node(node, p),
    ensures
        ({
            let state = match node.status_check_rollup {
                Some(r) => match r.state {
                    Some(s) => Some(s@),
                    None => None,
                },
                None => None,
            };
            &&& state == Some("SUCCESS"@) ==> p.ci == "success"@
            &&& state == Some("FAILURE"@) ==> p.ci == "failure"@
            &&& state == Some("ERROR"@) ==> p.ci == "failure"@
            &&& state == Some("PENDING"@) ==> p.ci == "pending"@
            &&& state == Some("EXPECTED"@) ==> p.ci == "pending"@
            &&& state is None ==> p.ci == "none"@
        }),
{
    reveal_strlit("SUCCESS");
    reveal_strlit("FAILURE");
    reveal_strlit("ERROR");
    reveal_strlit("PENDING");
    reveal_strlit("EXPECTED");
    assert("FAILURE"@[0] != "SUCCESS"@[0]);
    assert("ERROR"@.len() != "SUCCESS"@.len());
}

/// The approvals a row needs are at least every count its base branch's
/// rules carry (each ruleset rule's, the update rule's, and the protection
/// rule's when it requires approving reviews), and are one of those counts,
/// or 0, or 1 when GitHub's review decision is `REVIEW_REQUIRED`.
pub proof fn law_row_required_approvals_follow_the_rules(node: PullNode, p: PullView)
    requires
        pull_from_node(node, p),
        node.base_ref is Some,
    ensures
        ({
            let b = node.base_ref->0;
            let n = p.required_approvals;
            let protection = b.branch_protection_rule;
            let update = b.ref_update_rule;
            &&& protection is Some && protection->0.requires_approving_reviews
                && protection->0.required_approving_review_count is Some
                ==> protection->0.required_approving_review_count->0 <= n
            &&& update is Some && update->0.required_approving_review_count is Some
                ==> update->0.required_approving_review_count->0 <= n
            &&& forall|k: int|
                b.rules is Some && 0 <= k < b.rules->0.nodes@.len() && rule_count(
                    #[trigger] b.rules->0.nodes@[k],
                ) is Some ==> rule_count(b.rules->0.nodes@[k])->0 <= n
            &&& {
                ||| n == 0
                ||| n == 1 && node.review_decision is Some && node.review_decision->0@ == "REVIEW_REQUIRED"@
                ||| protection is Some && protection->0.requires_approving_reviews
                    && protection->0.required_approving_review_count == Some(n)
                ||| update is Some && update->0.required_approving_review_count == Some(n)
                ||| b.rules is Some && exists|k: int|
                    0 <= k < b.rules->0.nodes@.len() && rule_count(#[trigger] b.rules->0.nodes@[k]) == Some(n)
            }
        }),
{
    let b = node.base_ref->0;
    if b.rules is Some {
        lemma_ruleset_max(b.rules->0.nodes@);
    }
}

/// The messages joined with `sep` between them.
pub open spec fn join(parts: Seq<Seq<char>>, sep: Seq<char>) -> Seq<char>
    decreases parts.len(),
{
    if parts.len() == 0 {
        Seq::empty()
    } else if parts.len() == 1 {
        parts[0]
    } else {
        join(parts.drop_last(), sep) + sep + parts.last()
    }
}

/// The present nodes of a search answer, in order.
pub open spec fn present_nodes(nodes: Seq<Option<PullNode>>) -> Seq<PullNode>
    decreases nodes.len(),
{
    if nodes.len() == 0 {
        Seq::empty()
    } else {
        let rest = present_nodes(nodes.drop_last());
        match nodes.last() {
            Some(n) => rest.push(n),
            None => rest,
        }
    }
}

/// The messages of GraphQL errors.
pub open spec fn error_messages(errors: Seq<GraphqlError>) -> Seq<Seq<char>> {
    errors.map_values(|e: GraphqlError| e.message@)
}

/// How a search answer is read: GraphQL errors win, joined by `; `; a
/// missing search is an error; otherwise every present node is read in
/// order, the first unknown state being the error; an empty end cursor
/// counts as none.
pub open spec fn page_from_body(body: GraphqlBody, r: Result<PullPage, GithubError>) -> bool {
    if body.errors is Some && body.errors->0@.len() > 0 {
        r is Err && r->Err_0.message_view() == join(error_messages(body.errors->0@), "; "@)
    } else if body.data is None || body.data->0.search is None {
        r is Err && r->Err_0.message_view() == "pull request response had no data"@
    } else {
        let search = body.data->0.search->0;
        let nodes = present_nodes(search.nodes@);
        match r {
            Ok(page) => {
                &&& page.has_next_page == search.page_info.has_next_page
                &&& opt_view(page.end_cursor) == match search.page_info.end_cursor {
                    Some(c) => if c@.len() > 0 {
                        Some(c@)
                    } else {
                        None
                    },
                    None => None,
                }
                &&& page.pulls@.len() == nodes.len()
                &&& forall|i: int| 0 <= i < nodes.len() ==> pull_from_node(nodes[i], #[trigger] page.pulls@[i]@)
            },
            Err(e) => exists|i: int|
                0 <= i < nodes.len() && pull_state(nodes[i].state@, nodes[i].is_draft) is None
                    && e.message_view() == unknown_state_message(nodes[i].state@) && forall|j: int|
                    0 <= j < i ==> #[trigger] pull_state(nodes[j].state@, nodes[j].is_draft) is Some,
        }
    }
}

pub(crate) fn join_messages(errors: &Vec<GraphqlError>) -> (s: String)
    requires
        errors@.len() > 0,
    ensures
        s@ == join(error_messages(errors@), "; "@),
{
    let mut out = errors[0].message.clone();
    let mut i: usize = 1;
    proof {
        reveal_with_fuel(join, 2);
        assert(error_messages(errors@).take(1) =~= seq![errors@[0].message@]);
    }
    while i < errors.len()
        invariant
            1 <= i <= errors.len(),
            out@ == join(error_messages(errors@).take(i as int), "; "@),
        decreases errors.len() - i,
    {
        out.append("; ");
        out.append(errors[i].message.as_str());
        proof {
            assert(error_messages(errors@).take(i + 1).drop_last() =~= error_messages(errors@).take(i as int));
        }
        i = i + 1;
    }
    assert(error_messages(errors@).take(errors@.len() as int) =~= error_messages(errors@));
    out
}

/// Reads a search answer into a page of pull requests.
pub fn pull_page(body: GraphqlBody) -> (r: Result<PullPage, GithubError>)
    ensures
        page_from_body(body, r),
{
    let ghost b = body;
    if let Some(errors) = &body.errors {
        if errors.len() > 0 {
            return Err(GithubError::from_string(join_messages(errors)));
        }
    }
    let search = match body.data {
        Some(data) => match data.search {
            Some(search) => search,
            None => return Err(GithubError::new("pull request response had no data")),
        },
        None => return Err(GithubError::new("pull request response had no data")),
    };
    let ghost all = search.nodes@;
    let mut pulls: Vec<RemotePull> = Vec::new();
    let mut nodes = search.nodes;
    let mut i: usize = 0;
    let n = nodes.len();
    while i < n
        invariant
            n == all.len(),
            i <= n,
            b == body,
            b.data is Some && b.data->0.search is Some && b.data->0.search->0.nodes@ == all,
            !(b.errors is Some && b.errors->0@.len() > 0),
            nodes@.len() == n,
            forall|k: int| i <= k < n ==> nodes@[k] == all[k],
            pulls@.len() == present_nodes(all.take(i as int)).len(),
            forall|k: int|
                0 <= k < pulls@.len() ==> pull_from_node(
                    present_nodes(all.take(i as int))[k],
                    #[trigger] pulls@[k]@,
                ),
            forall|k: int|
                0 <= k < present_nodes(all.take(i as int)).len() ==> #[trigger] pull_state(
                    present_nodes(all.take(i as int))[k].state@,
                    present_nodes(all.take(i as int))[k].is_draft,
                ) is Some,
        decreases n - i,
    {
        let mut node: Option<PullNode> = None;
        std::mem::swap(&mut node, &mut nodes[i]);
        proof {
            assert(all.take(i + 1).drop_last() =~= all.take(i as int));
            assert(all.take(i + 1).last() == all[i as int]);
        }
        match node {
            Some(node) => {
                let ghost nd = node;
                match remote_pull(node) {
                    Ok(p) => {
                        pulls.push(p);
                    },
                    Err(e) => {
                        proof {
                            let ps = present_nodes(all.take(i + 1));
                            assert(ps.last() == nd);
                            assert(all.take(n as int) =~= all);
                            lemma_present_prefix(all, i + 1, n as int);
                            let full = present_nodes(all);
                            let idx = ps.len() - 1;
                            assert(full[idx] == nd);
                            assert forall|j: int| 0 <= j < idx implies #[trigger] pull_state(full[j].state@, full[j].is_draft) is Some by {
                                assert(full[j] == ps[j]);
                                assert(ps[j] == present_nodes(all.take(i as int))[j]);
                            }
                            assert(pull_state(full[idx].state@, full[idx].is_draft) is None);
                            assert(e.message_view() == unknown_state_message(full[idx].state@));
                            assert(b.data->0.search->0.nodes@ == all);
                            assert(!(b.errors is Some && b.errors->0@.len() > 0));
                            assert(present_nodes(b.data->0.search->0.nodes@) == full);
                            assert(exists|w: int|
                                0 <= w < full.len() && pull_state(full[w].state@, full[w].is_draft) is None
                                    && e.message_view() == unknown_state_message(full[w].state@) && forall|j: int|
                                    0 <= j < w ==> #[trigger] pull_state(full[j].state@, full[j].is_draft) is Some);
                            assert(page_from_body(b, Err::<PullPage, GithubError>(e)));
                        }
                        return Err(e);
                    },
                }
            },
            None => {},
        }
        i = i + 1;
    }
    assert(all.take(n as int) =~= all);
    let end_cursor = non_empty_string(search.page_info.end_cursor);
    Ok(PullPage { pulls, has_next_page: search.page_info.has_next_page, end_cursor })
}

/// The present nodes of a prefix are a prefix of the present nodes.
pub proof fn lemma_present_prefix(all: Seq<Option<PullNode>>, i: int, j: int)
    requires
        0 <= i <= j <= all.len(),
    ensures
        present_nodes(all.take(i)).len() <= present_nodes(all.take(j)).len(),
        forall|k: int|
            0 <= k < present_nodes(all.take(i)).len() ==> present_nodes(all.take(j))[k]
                == present_nodes(all.take(i))[k],
    decreases j - i,
{
    if i < j {
        lemma_present_prefix(all, i, j - 1);
        assert(all.take(j).drop_last() =~= all.take(j - 1));
    }
}

} // verus!
