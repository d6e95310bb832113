//! What the remote tells about a pull request, as plain records.

use crate::time::Timestamp;
use vstd::prelude::*;

verus! {

/// The account that opened a pull request.
#[derive(Clone, Debug)]
pub struct User {
    pub login: String,
    pub url: String,
}

/// One end of a pull request: a branch in some fork.
#[derive(Clone, Debug)]
pub struct ForkBranch {
    /// Fork and branch name in the format "owner:branch"
    pub label: String,
    /// Branch name in a given fork
    pub reference: String,
    pub sha: String,
}

/// A pull request as the remote described it when it was asked.
#[derive(Clone, Debug)]
pub struct PullRequest {
    pub html_url: String,
    pub number: u64,
    pub title: String,
    pub user: User,
    pub created_at: Timestamp,
    pub merged_at: Option<Timestamp>,
    pub merged: bool,
    /// The commit that merged the pull request. The remote forgets it for
    /// pull requests that are very old.
    pub merge_commit_sha: Option<String>,
    /// Base branch that the pull request is merged into
    pub base: ForkBranch,
    /// Head branch that the pull request is merged from
    pub head: ForkBranch,
}

/// How two commits relate, in the remote's word for it.
#[derive(Clone, Debug)]
pub struct Comparison {
    pub status: String,
}

/// What the remote says when it refuses a request.
#[derive(Clone, Debug)]
pub struct GitHubError {
    pub message: String,
    pub documentation_url: String,
}

/// What the remote says when it answers with status 403.
#[derive(Clone, Debug)]
pub struct GitHub403Forbidden {
    pub message: String,
    pub documentation_url: String,
}

} // verus!
