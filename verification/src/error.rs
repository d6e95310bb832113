//! The errors of the tracker, each with the text shown to the user.

use crate::text::{decimal, decimal_text};
use vstd::prelude::*;
use vstd::std_specs::convert::FromSpecImpl;
use vstd::string::StringExecFns;

verus! {

/// Why a request got no usable answer.
#[derive(Clone, Debug)]
pub enum RequestFailure {
    /// The request could not be sent or no response arrived; the text says why.
    Transport(String),
    /// The response carried a status that the tracker has no use for.
    Status(u16),
    /// The response arrived but its body could not be read as expected; the
    /// text says why.
    Decode(String),
    /// The response promised an answer in its body, and the body was not read.
    Unread,
}

/// What can go wrong with the local clone.
#[derive(Clone, Debug)]
pub enum LocalRepositoryError {
    /// The clone could not be opened, or the tracker's working tree in it
    /// could not be made, opened or brought up to date; the text says why.
    MissingClone(String),
    /// The repository is no clone of Nixpkgs.
    NotNixpkgs,
    /// No directory is known in which the working tree could be kept.
    NoCacheDirectory,
    /// The commit hash names no commit of the clone; the text says why.
    UnresolvedCommit(String),
    /// The branch is unknown to the clone or leads to no commit; the text says why.
    UnresolvedBranch(String),
    /// The history between two commits could not be walked; the text says why.
    Graph(String),
    /// The tracker's working tree could not be removed; the text says why.
    Worktree(String),
}

/// What can go wrong when asking about a pull request or a branch.
#[derive(Clone, Debug)]
pub enum NixpkgsTrackError {
    /// The remote knows no pull request with this number.
    PullRequestNotFound(u64),
    /// The remote refused to answer because too many requests were made.
    RateLimitExceeded,
    /// Anything else with the remote: the request failed, or the answer was
    /// not understood.
    RequestFailed(RequestFailure),
    /// The local clone could not answer.
    LocalRepository(LocalRepositoryError),
}

/// What can go wrong while checking one pull request.
#[derive(Clone, Debug)]
pub enum CheckError {
    RequestFailed(RequestFailure),
    PullRequestNotFound(u64),
    RateLimitExceeded,
    /// A part of the report could not be written.
    FormatFailed,
    LocalRepository(LocalRepositoryError),
}

/// The watch list's file could not be read or written; the text says why.
#[derive(Clone, Debug)]
pub struct CacheFsError(pub String);

impl RequestFailure {
    pub open spec fn message_text(self) -> Seq<char> {
        match self {
            RequestFailure::Transport(cause) => cause@,
            RequestFailure::Status(code) => "unexpected HTTP status "@ + decimal_text(code as nat),
            RequestFailure::Decode(cause) => "error decoding response body: "@ + cause@,
            RequestFailure::Unread => "the body of the response was not read"@,
        }
    }

    /// The failure in words.
    pub fn message(&self) -> (s: String)
        ensures
            s@ == self.message_text(),
    {
        match self {
            RequestFailure::Transport(cause) => cause.clone(),
            RequestFailure::Status(code) => {
                let mut s = String::from_str("unexpected HTTP status ");
                s.append(decimal(*code as u64).as_str());
                s
            },
            RequestFailure::Decode(cause) => {
                let mut s = String::from_str("error decoding response body: ");
                s.append(cause.as_str());
                s
            },
            RequestFailure::Unread => String::from_str("the body of the response was not read"),
        }
    }
}

impl LocalRepositoryError {
    pub open spec fn message_text(self) -> Seq<char> {
        match self {
            LocalRepositoryError::MissingClone(cause) => cause@,
            LocalRepositoryError::NotNixpkgs => "Path must be a Nixpkgs repository"@,
            LocalRepositoryError::NoCacheDirectory => "No cache directory is known"@,
            LocalRepositoryError::UnresolvedCommit(cause) => cause@,
            LocalRepositoryError::UnresolvedBranch(cause) => cause@,
            LocalRepositoryError::Graph(cause) => cause@,
            LocalRepositoryError::Worktree(cause) => cause@,
        }
    }

    /// The error in words: the reason that git gave, where it gave one.
    pub fn message(&self) -> (s: String)
        ensures
            s@ == self.message_text(),
    {
        match self {
            LocalRepositoryError::MissingClone(cause) => cause.clone(),
            LocalRepositoryError::NotNixpkgs => String::from_str(
                "Path must be a Nixpkgs repository",
            ),
            LocalRepositoryError::NoCacheDirectory => String::from_str(
                "No cache directory is known",
            ),
            LocalRepositoryError::UnresolvedCommit(cause) => cause.clone(),
            LocalRepositoryError::UnresolvedBranch(cause) => cause.clone(),
            LocalRepositoryError::Graph(cause) => cause.clone(),
            LocalRepositoryError::Worktree(cause) => cause.clone(),
        }
    }
}

impl NixpkgsTrackError {
    pub open spec fn message_text(self) -> Seq<char> {
        match self {
            NixpkgsTrackError::PullRequestNotFound(_) => "Pull request not found"@,
            NixpkgsTrackError::RateLimitExceeded => "Rate limit exceeded"@,
            NixpkgsTrackError::RequestFailed(failure) => failure.message_text(),
            NixpkgsTrackError::LocalRepository(failure) => failure.message_text(),
        }
    }

    /// The error in words. A failed request and a failure of the local clone
    /// read as their cause does.
    pub fn message(&self) -> (s: String)
        ensures
            s@ == self.message_text(),
    {
        match self {
            NixpkgsTrackError::PullRequestNotFound(_) => String::from_str("Pull request not found"),
            NixpkgsTrackError::RateLimitExceeded => String::from_str("Rate limit exceeded"),
            NixpkgsTrackError::RequestFailed(failure) => failure.message(),
            NixpkgsTrackError::LocalRepository(failure) => failure.message(),
        }
    }
}

impl CheckError {
    pub open spec fn message_text(self) -> Seq<char> {
        match self {
            CheckError::RequestFailed(_) => "Failed to fetch the pull request."@,
            CheckError::PullRequestNotFound(id) => "Pull request "@ + decimal_text(id as nat)
                + " not found."@,
            CheckError::RateLimitExceeded => "GitHub rate limit was exceeded."@,
            CheckError::FormatFailed => "An error occurred while formatting the output."@,
            CheckError::LocalRepository(_) => "Failed to read the local clone of Nixpkgs."@,
        }
    }

    pub open spec fn help_text(self) -> Option<Seq<char>> {
        match self {
            CheckError::RequestFailed(_) => Some(
                "Is the GitHub authentication token, set by the --token flag or GITHUB_TOKEN environment variable, correct?"@,
            ),
            CheckError::PullRequestNotFound(_) => Some("Are you sure the pull request exists?"@),
            CheckError::RateLimitExceeded => Some(
                "You can provide a GitHub token with the --token flag or GITHUB_TOKEN environment variable."@,
            ),
            CheckError::FormatFailed => None,
            CheckError::LocalRepository(_) => None,
        }
    }

    /// The error in words; a pull request that was not found is named by its number.
    pub fn message(&self) -> (s: String)
        ensures
            s@ == self.message_text(),
    {
        match self {
            CheckError::RequestFailed(_) => String::from_str("Failed to fetch the pull request."),
            CheckError::PullRequestNotFound(id) => {
                let mut s = String::from_str("Pull request ");
                s.append(decimal(*id).as_str());
                s.append(" not found.");
                s
            },
            CheckError::RateLimitExceeded => String::from_str("GitHub rate limit was exceeded."),
            CheckError::FormatFailed => String::from_str(
                "An error occurred while formatting the output.",
            ),
            CheckError::LocalRepository(_) => String::from_str(
                "Failed to read the local clone of Nixpkgs.",
            ),
        }
    }

    /// One line that tells the user what to try next, where there is something to try.
    pub fn help(&self) -> (h: Option<String>)
        ensures
            match h {
                Some(s) => self.help_text() == Some(s@),
                None => self.help_text() is None,
            },
    {
        match self {
            CheckError::RequestFailed(_) => Some(
                String::from_str(
                    "Is the GitHub authentication token, set by the --token flag or GITHUB_TOKEN environment variable, correct?",
                ),
            ),
            CheckError::PullRequestNotFound(_) => Some(
                String::from_str("Are you sure the pull request exists?"),
            ),
            CheckError::RateLimitExceeded => Some(
                String::from_str(
                    "You can provide a GitHub token with the --token flag or GITHUB_TOKEN environment variable.",
                ),
            ),
            CheckError::FormatFailed => None,
            CheckError::LocalRepository(_) => None,
        }
    }
}

impl CacheFsError {
    pub open spec fn message_text() -> Seq<char> {
        "An error occurred while reading or writing the cache file."@
    }

    /// The error in words; the cause is kept apart, in the field.
    pub fn message(&self) -> (s: String)
        ensures
            s@ == Self::message_text(),
    {
        String::from_str("An error occurred while reading or writing the cache file.")
    }
}

impl From<NixpkgsTrackError> for CheckError {
    fn from(err: NixpkgsTrackError) -> (r: CheckError) {
        match err {
            NixpkgsTrackError::RequestFailed(err) => CheckError::RequestFailed(err),
            NixpkgsTrackError::PullRequestNotFound(pull_request) => CheckError::PullRequestNotFound(
                pull_request,
            ),
            NixpkgsTrackError::RateLimitExceeded => CheckError::RateLimitExceeded,
            NixpkgsTrackError::LocalRepository(err) => CheckError::LocalRepository(err),
        }
    }
}

impl FromSpecImpl<NixpkgsTrackError> for CheckError {
    open spec fn obeys_from_spec() -> bool {
        true
    }

    open spec fn from_spec(err: NixpkgsTrackError) -> CheckError {
        match err {
            NixpkgsTrackError::RequestFailed(failure) => CheckError::RequestFailed(failure),
            NixpkgsTrackError::PullRequestNotFound(id) => CheckError::PullRequestNotFound(id),
            NixpkgsTrackError::RateLimitExceeded => CheckError::RateLimitExceeded,
            NixpkgsTrackError::LocalRepository(failure) => CheckError::LocalRepository(failure),
        }
    }
}

} // verus!
