use nixpkgs_track::error::{
    CacheFsError, CheckError, LocalRepositoryError, NixpkgsTrackError, RequestFailure,
};

#[test]
fn request_failure_messages() {
    assert_eq!(RequestFailure::Transport("timed out".to_string()).message(), "timed out");
    assert_eq!(RequestFailure::Status(502).message(), "unexpected HTTP status 502");
    assert_eq!(RequestFailure::Unread.message(), "the body of the response was not read");
    assert_eq!(
        RequestFailure::Decode("expected value".to_string()).message(),
        "error decoding response body: expected value"
    );
}

#[test]
fn track_error_messages() {
    assert_eq!(NixpkgsTrackError::PullRequestNotFound(12).message(), "Pull request not found");
    assert_eq!(NixpkgsTrackError::RateLimitExceeded.message(), "Rate limit exceeded");
    assert_eq!(
        NixpkgsTrackError::RequestFailed(RequestFailure::Status(500)).message(),
        "unexpected HTTP status 500"
    );
    assert_eq!(
        NixpkgsTrackError::LocalRepository(LocalRepositoryError::UnresolvedBranch("no such branch".to_string()))
            .message(),
        "no such branch"
    );
}

#[test]
fn check_error_messages_name_what_failed() {
    assert_eq!(
        CheckError::RequestFailed(RequestFailure::Status(500)).message(),
        "Failed to fetch the pull request."
    );
    assert_eq!(CheckError::PullRequestNotFound(370713).message(), "Pull request 370713 not found.");
    assert_eq!(CheckError::RateLimitExceeded.message(), "GitHub rate limit was exceeded.");
    assert_eq!(CheckError::FormatFailed.message(), "An error occurred while formatting the output.");
    assert_eq!(
        CheckError::LocalRepository(LocalRepositoryError::NotNixpkgs).message(),
        "Failed to read the local clone of Nixpkgs."
    );
}

#[test]
fn check_error_hints() {
    assert_eq!(
        CheckError::RequestFailed(RequestFailure::Status(500)).help(),
        Some(
            "Is the GitHub authentication token, set by the --token flag or GITHUB_TOKEN environment variable, correct?"
                .to_string()
        )
    );
    assert_eq!(
        CheckError::PullRequestNotFound(1).help(),
        Some("Are you sure the pull request exists?".to_string())
    );
    assert_eq!(
        CheckError::RateLimitExceeded.help(),
        Some("You can provide a GitHub token with the --token flag or GITHUB_TOKEN environment variable.".to_string())
    );
    assert_eq!(CheckError::FormatFailed.help(), None);
    assert_eq!(CheckError::LocalRepository(LocalRepositoryError::NotNixpkgs).help(), None);
}

#[test]
fn cache_error_message() {
    let err = CacheFsError("permission denied".to_string());
    assert_eq!(err.message(), "An error occurred while reading or writing the cache file.");
    assert_eq!(err.0, "permission denied");
}

#[test]
fn track_errors_become_check_errors() {
    assert!(matches!(
        CheckError::from(NixpkgsTrackError::PullRequestNotFound(9)),
        CheckError::PullRequestNotFound(9)
    ));
    assert!(matches!(CheckError::from(NixpkgsTrackError::RateLimitExceeded), CheckError::RateLimitExceeded));
    match CheckError::from(NixpkgsTrackError::RequestFailed(RequestFailure::Transport("x".to_string()))) {
        CheckError::RequestFailed(RequestFailure::Transport(cause)) => assert_eq!(cause, "x"),
        other => panic!("{:?}", other),
    }
    assert!(matches!(
        CheckError::from(NixpkgsTrackError::LocalRepository(LocalRepositoryError::NotNixpkgs)),
        CheckError::LocalRepository(LocalRepositoryError::NotNixpkgs)
    ));
    let converted: CheckError = NixpkgsTrackError::RequestFailed(RequestFailure::Status(418)).into();
    assert!(matches!(converted, CheckError::RequestFailed(RequestFailure::Status(418))));
}
