//! Containment and pull requests asked of the remote: which request to send,
//! and what its answer means. Sending is left to the caller, who reports back
//! the status of the response and, where it is asked for, what reading the
//! body gave.

use crate::error::{NixpkgsTrackError, RequestFailure};
use crate::model::{Comparison, PullRequest};
use crate::text::{decimal, decimal_text, same_text};
use vstd::prelude::*;
use vstd::string::StringExecFns;

verus! {

/// Where the remote answers questions about Nixpkgs.
pub open spec fn base_api_url() -> Seq<char> {
    "https://api.github.com/repos/nixos/nixpkgs"@
}

/// The name by which the tracker introduces itself to the remote.
pub open spec fn user_agent() -> Seq<char> {
    "nixpkgs-track"@
}

/// A read request: the address to get, the `User-Agent` header, and the
/// bearer credential to authorise with, if there is one.
#[derive(Clone, Debug)]
pub struct Request {
    pub url: String,
    pub user_agent: String,
    pub bearer: Option<String>,
}

/// The text of an optional string.
pub open spec fn text_of(value: Option<&str>) -> Option<Seq<char>> {
    match value {
        Some(text) => Some(text@),
        None => None,
    }
}

impl Request {
    /// The credential of the request as text.
    pub open spec fn bearer_text(self) -> Option<Seq<char>> {
        match self.bearer {
            Some(token) => Some(token@),
            None => None,
        }
    }
}

/// The address that describes the pull request with this number.
pub open spec fn pull_request_url_text(pull_request: u64) -> Seq<char> {
    base_api_url() + "/pulls/"@ + decimal_text(pull_request as nat)
}

/// The address that compares `commit` with `branch`. Its query asks for a
/// page so far out that the answer lists no commits and no files: only the
/// relationship of the two is wanted.
pub open spec fn comparison_url_text(branch: Seq<char>, commit: Seq<char>) -> Seq<char> {
    base_api_url() + "/compare/"@ + branch + "..."@ + commit + "?per_page=1000000&page=100"@
}

/// A request for `url` in the tracker's name, with `token` as its credential
/// where there is one.
pub fn build_request(url: &str, token: Option<&str>) -> (request: Request)
    ensures
        request.url@ == url@,
        request.user_agent@ == user_agent(),
        request.bearer_text() == text_of(token),
{
    let bearer = match token {
        Some(token) => Some(String::from_str(token)),
        None => None,
    };
    Request { url: String::from_str(url), user_agent: String::from_str("nixpkgs-track"), bearer }
}

/// The request that asks the remote for the pull request with this number.
pub fn pull_request_request(pull_request: u64, token: Option<&str>) -> (request: Request)
    ensures
        request.url@ == pull_request_url_text(pull_request),
        request.user_agent@ == user_agent(),
        request.bearer_text() == text_of(token),
{
    let mut url = String::from_str("https://api.github.com/repos/nixos/nixpkgs");
    url.append("/pulls/");
    url.append(decimal(pull_request).as_str());
    build_request(url.as_str(), token)
}

/// The request that asks the remote how `commit` relates to `branch`.
pub fn comparison_request(branch: &str, commit: &str, token: Option<&str>) -> (request: Request)
    ensures
        request.url@ == comparison_url_text(branch@, commit@),
        request.user_agent@ == user_agent(),
        request.bearer_text() == text_of(token),
{
    let mut url = String::from_str("https://api.github.com/repos/nixos/nixpkgs");
    url.append("/compare/");
    url.append(branch);
    url.append("...");
    url.append(commit);
    url.append("?per_page=1000000&page=100");
    build_request(url.as_str(), token)
}

/// What to do once the status of a response is known.
#[derive(Debug)]
pub enum Step<T> {
    /// The status promises an answer in the body: read it and report what
    /// came of that.
    ReadBody,
    /// The status settles the matter.
    Done(Result<T, NixpkgsTrackError>),
}

/// The error for a request that could not be sent, or that no response came to.
pub fn transport_failure(cause: String) -> (err: NixpkgsTrackError)
    ensures
        err == NixpkgsTrackError::RequestFailed(RequestFailure::Transport(cause)),
{
    NixpkgsTrackError::RequestFailed(RequestFailure::Transport(cause))
}

/// What the status of the response to a request for a pull request means.
pub open spec fn pull_request_step(pull_request: u64, status: u16) -> Step<PullRequest> {
    if status == 200 {
        Step::ReadBody
    } else if status == 404 {
        Step::Done(Err(NixpkgsTrackError::PullRequestNotFound(pull_request)))
    } else if status == 403 {
        Step::Done(Err(NixpkgsTrackError::RateLimitExceeded))
    } else {
        Step::Done(Err(NixpkgsTrackError::RequestFailed(RequestFailure::Status(status))))
    }
}

/// Decides what the status of the response to a request for the pull request
/// `pull_request` means: 200 promises the description, 404 says that there is
/// no such pull request, 403 that the remote has had too many requests, with
/// or without a credential, and any other status is a failure.
pub fn pull_request_after_status(pull_request: u64, status: u16) -> (step: Step<PullRequest>)
    ensures
        step == pull_request_step(pull_request, status),
{
    if status == 200 {
        Step::ReadBody
    } else if status == 404 {
        Step::Done(Err(NixpkgsTrackError::PullRequestNotFound(pull_request)))
    } else if status == 403 {
        Step::Done(Err(NixpkgsTrackError::RateLimitExceeded))
    } else {
        Step::Done(Err(NixpkgsTrackError::RequestFailed(RequestFailure::Status(status))))
    }
}

/// Concludes the request for a pull request from what reading the body gave:
/// the description, or the reason why the body could not be read as one.
pub fn pull_request_after_body(body: Result<PullRequest, String>) -> (r: Result<
    PullRequest,
    NixpkgsTrackError,
>)
    ensures
        r == match body {
            Ok(pull_request) => Ok::<PullRequest, NixpkgsTrackError>(pull_request),
            Err(cause) => Err(NixpkgsTrackError::RequestFailed(RequestFailure::Decode(cause))),
        },
{
    match body {
        Ok(pull_request) => Ok(pull_request),
        Err(cause) => Err(NixpkgsTrackError::RequestFailed(RequestFailure::Decode(cause))),
    }
}

/// Whether `status` is one of the two relationships under which the compared
/// commit is part of the branch: it is the branch's tip, or the branch has
/// moved on from it.
pub open spec fn status_means_contained(status: Seq<char>) -> bool {
    status == "identical"@ || status == "behind"@
}

/// What the status of the response to a comparison means.
pub open spec fn comparison_step(status: u16) -> Step<bool> {
    if status == 200 {
        Step::ReadBody
    } else if status == 404 {
        Step::Done(Ok(false))
    } else if status == 403 {
        Step::Done(Err(NixpkgsTrackError::RateLimitExceeded))
    } else {
        Step::Done(Err(NixpkgsTrackError::RequestFailed(RequestFailure::Status(status))))
    }
}

/// Decides what the status of the response to a comparison means: 200
/// promises the relationship, 403 says that the remote has had too many
/// requests, and any other status but 404 is a failure. A branch or a commit
/// that the remote does not know, status 404, is no error: the branch does
/// not contain the commit.
pub fn comparison_after_status(status: u16) -> (step: Step<bool>)
    ensures
        step == comparison_step(status),
        status == 404 ==> step == Step::Done(Ok::<bool, NixpkgsTrackError>(false)),
{
    if status == 200 {
        Step::ReadBody
    } else if status == 404 {
        Step::Done(Ok(false))
    } else if status == 403 {
        Step::Done(Err(NixpkgsTrackError::RateLimitExceeded))
    } else {
        Step::Done(Err(NixpkgsTrackError::RequestFailed(RequestFailure::Status(status))))
    }
}

/// Concludes a comparison from what reading the body gave. The branch
/// contains the commit if the commit is `identical` to the branch's tip or
/// `behind` it, and does not under any other relationship.
pub fn comparison_after_body(body: Result<Comparison, String>) -> (r: Result<
    bool,
    NixpkgsTrackError,
>)
    ensures
        r == match body {
            Ok(comparison) => Ok::<bool, NixpkgsTrackError>(
                status_means_contained(comparison.status@),
            ),
            Err(cause) => Err(NixpkgsTrackError::RequestFailed(RequestFailure::Decode(cause))),
        },
{
    match body {
        Ok(json) => Ok(
            same_text(json.status.as_str(), "identical") || same_text(
                json.status.as_str(),
                "behind",
            ),
        ),
        Err(cause) => Err(NixpkgsTrackError::RequestFailed(RequestFailure::Decode(cause))),
    }
}

/// What came of sending a request.
#[derive(Debug)]
pub enum Exchange<T> {
    /// The request could not be sent, or no response came; the text says why.
    Failed(String),
    /// A response came. `body` holds what reading the body gave, or the reason
    /// why it could not be read; it is `None` where the body was not read.
    Answered { status: u16, body: Option<Result<T, String>> },
}

/// Whether the body of a response with this status is to be read.
pub fn wants_body(status: u16) -> (wanted: bool)
    ensures
        wanted == (status == 200),
{
    status == 200
}

/// The pull request `pull_request` as the exchange with the remote gave it.
pub open spec fn pull_request_outcome(
    pull_request: u64,
    exchange: Exchange<PullRequest>,
) -> Result<PullRequest, NixpkgsTrackError> {
    match exchange {
        Exchange::Failed(cause) => Err(
            NixpkgsTrackError::RequestFailed(RequestFailure::Transport(cause)),
        ),
        Exchange::Answered { status, body } => match pull_request_step(pull_request, status) {
            Step::Done(outcome) => outcome,
            Step::ReadBody => match body {
                Some(Ok(description)) => Ok(description),
                Some(Err(cause)) => Err(
                    NixpkgsTrackError::RequestFailed(RequestFailure::Decode(cause)),
                ),
                None => Err(NixpkgsTrackError::RequestFailed(RequestFailure::Unread)),
            },
        },
    }
}

/// Whether the branch contains the commit, as the exchange with the remote
/// gave it.
pub open spec fn containment_outcome(exchange: Exchange<Comparison>) -> Result<
    bool,
    NixpkgsTrackError,
> {
    match exchange {
        Exchange::Failed(cause) => Err(
            NixpkgsTrackError::RequestFailed(RequestFailure::Transport(cause)),
        ),
        Exchange::Answered { status, body } => match comparison_step(status) {
            Step::Done(outcome) => outcome,
            Step::ReadBody => match body {
                Some(Ok(comparison)) => Ok(status_means_contained(comparison.status@)),
                Some(Err(cause)) => Err(
                    NixpkgsTrackError::RequestFailed(RequestFailure::Decode(cause)),
                ),
                None => Err(NixpkgsTrackError::RequestFailed(RequestFailure::Unread)),
            },
        },
    }
}

/// Concludes the request for the pull request `pull_request` from the whole
/// exchange: the description of the pull request, `PullRequestNotFound` for
/// status 404, `RateLimitExceeded` for status 403, and `RequestFailed` for any
/// other status but 200, for a request that got no response, and for a body
/// that could not be read.
pub fn fetch_nixpkgs_pull_request(pull_request: u64, exchange: Exchange<PullRequest>) -> (r: Result<
    PullRequest,
    NixpkgsTrackError,
>)
    ensures
        r == pull_request_outcome(pull_request, exchange),
{
    match exchange {
        Exchange::Failed(cause) => Err(transport_failure(cause)),
        Exchange::Answered { status, body } => match pull_request_after_status(
            pull_request,
            status,
        ) {
            Step::Done(outcome) => outcome,
            Step::ReadBody => match body {
                Some(read) => pull_request_after_body(read),
                None => Err(NixpkgsTrackError::RequestFailed(RequestFailure::Unread)),
            },
        },
    }
}

/// Concludes a comparison from the whole exchange: the branch contains the
/// commit if the remote calls the commit `identical` to the branch or
/// `behind` it, and does not if the remote calls it anything else or answers
/// with status 404. Status 403 is `RateLimitExceeded`; any other status but
/// 200, a request that got no response, and a body that could not be read are
/// `RequestFailed`.
pub fn branch_contains_commit(exchange: Exchange<Comparison>) -> (r: Result<bool, NixpkgsTrackError>)
    ensures
        r == containment_outcome(exchange),
        exchange matches Exchange::Answered { status, .. } && status == 404 ==> r == Ok::<
            bool,
            NixpkgsTrackError,
        >(false),
{
    match exchange {
        Exchange::Failed(cause) => Err(transport_failure(cause)),
        Exchange::Answered { status, body } => match comparison_after_status(status) {
            Step::Done(outcome) => outcome,
            Step::ReadBody => match body {
                Some(read) => comparison_after_body(read),
                None => Err(NixpkgsTrackError::RequestFailed(RequestFailure::Unread)),
            },
        },
    }
}

/// `request` is the comparison of `commit` with `branch`, in the tracker's
/// name and with `token` as its credential.
pub open spec fn is_comparison_request(
    request: Request,
    branch: Seq<char>,
    commit: Seq<char>,
    token: Option<&str>,
) -> bool {
    &&& request.url@ == comparison_url_text(branch, commit)
    &&& request.user_agent@ == user_agent()
    &&& request.bearer_text() == text_of(token)
}

/// The comparisons to hand out for one commit: one request for each branch,
/// tagged with the position of the branch in `branches`.
pub fn plan_comparisons(branches: &Vec<String>, commit: &str, token: Option<&str>) -> (plan: Vec<
    (usize, Request),
>)
    ensures
        plan.len() == branches.len(),
        forall|i: int|
            0 <= i < branches.len() ==> (#[trigger] plan[i]).0 == i && is_comparison_request(
                plan[i].1,
                branches[i]@,
                commit@,
                token,
            ),
{
    let mut plan: Vec<(usize, Request)> = Vec::new();
    let mut i: usize = 0;
    while i < branches.len()
        invariant
            i <= branches.len(),
            plan.len() == i,
            forall|k: int|
                0 <= k < i ==> (#[trigger] plan[k]).0 == k && is_comparison_request(
                    plan[k].1,
                    branches[k]@,
                    commit@,
                    token,
                ),
        decreases branches.len() - i,
    {
        let request = comparison_request(branches[i].as_str(), commit, token);
        plan.push((i, request));
        i += 1;
    }
    plan
}

/// `request` asks for the pull request `pull_request`, in the tracker's name
/// and with `token` as its credential.
pub open spec fn is_pull_request_request(
    request: Request,
    pull_request: u64,
    token: Option<&str>,
) -> bool {
    &&& request.url@ == pull_request_url_text(pull_request)
    &&& request.user_agent@ == user_agent()
    &&& request.bearer_text() == text_of(token)
}

/// The requests to hand out for a list of pull requests: one for each, tagged
/// with the position of the pull request in `pull_requests`.
pub fn plan_fetches(pull_requests: &Vec<u64>, token: Option<&str>) -> (plan: Vec<(usize, Request)>)
    ensures
        plan.len() == pull_requests.len(),
        forall|i: int|
            0 <= i < pull_requests.len() ==> (#[trigger] plan[i]).0 == i
                && is_pull_request_request(plan[i].1, pull_requests[i], token),
{
    let mut plan: Vec<(usize, Request)> = Vec::new();
    let mut i: usize = 0;
    while i < pull_requests.len()
        invariant
            i <= pull_requests.len(),
            plan.len() == i,
            forall|k: int|
                0 <= k < i ==> (#[trigger] plan[k]).0 == k && is_pull_request_request(
                    plan[k].1,
                    pull_requests[k],
                    token,
                ),
        decreases pull_requests.len() - i,
    {
        let request = pull_request_request(pull_requests[i], token);
        plan.push((i, request));
        i += 1;
    }
    plan
}

} // verus!
