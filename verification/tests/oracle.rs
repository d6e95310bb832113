use nixpkgs_track::error::{NixpkgsTrackError, RequestFailure};
use nixpkgs_track::model::{ForkBranch, PullRequest, User};
use nixpkgs_track::oracle::{ask_each, check_with, ContainmentOracle};
use nixpkgs_track::time::Timestamp;

/// An oracle that knows which branches hold which commit, and fails for the
/// branch `broken`.
struct Known {
    holding: Vec<(&'static str, &'static str)>,
}

impl ContainmentOracle for Known {
    fn contains(&self, branch: &str, commit: &str) -> Result<bool, NixpkgsTrackError> {
        if branch == "broken" {
            return Err(NixpkgsTrackError::RequestFailed(RequestFailure::Status(500)));
        }
        Ok(self.holding.iter().any(|(b, c)| *b == branch && *c == commit))
    }
}

fn fork() -> ForkBranch {
    ForkBranch { label: "l".to_string(), reference: "r".to_string(), sha: "s".to_string() }
}

fn pull_request(number: u64, merged_at: Option<i64>, sha: Option<&str>) -> PullRequest {
    PullRequest {
        html_url: format!("https://github.com/NixOS/nixpkgs/pull/{}", number),
        number,
        title: "fix".to_string(),
        user: User { login: "a".to_string(), url: "u".to_string() },
        created_at: Timestamp { secs: 1_704_067_200, nanos: 0 },
        merged_at: merged_at.map(|secs| Timestamp { secs, nanos: 0 }),
        merged: merged_at.is_some(),
        merge_commit_sha: sha.map(|s| s.to_string()),
        base: fork(),
        head: fork(),
    }
}

fn names(branches: &[&str]) -> Vec<String> {
    branches.iter().map(|b| b.to_string()).collect()
}

#[test]
fn every_branch_is_asked_in_order() {
    let oracle = Known { holding: vec![("master", "abc123"), ("staging-next", "abc123"), ("staging", "zzz")] };
    let answers = ask_each(&oracle, &names(&["master", "staging", "staging-next"]), "abc123");
    assert_eq!(answers.len(), 3);
    assert!(matches!(answers[0], Ok(true)));
    assert!(matches!(answers[1], Ok(false)));
    assert!(matches!(answers[2], Ok(true)));
    assert!(ask_each(&oracle, &names(&[]), "abc123").is_empty());
}

#[test]
fn failure_of_one_branch_does_not_stop_the_others() {
    let oracle = Known { holding: vec![("master", "abc123")] };
    let answers = ask_each(&oracle, &names(&["broken", "master", "staging"]), "abc123");
    assert_eq!(answers.len(), 3);
    assert!(matches!(answers[0], Err(NixpkgsTrackError::RequestFailed(RequestFailure::Status(500)))));
    assert!(matches!(answers[1], Ok(true)));
    assert!(matches!(answers[2], Ok(false)));
}

#[test]
fn merged_pull_request_is_reported_branch_by_branch() {
    yansi::disable();
    let oracle = Known { holding: vec![("master", "abc123")] };
    let merged = 1_704_067_200 + 3_600;
    let report = check_with(
        &oracle,
        &pull_request(1234, Some(merged), Some("abc123")),
        &Timestamp { secs: merged + 86_400, nanos: 0 },
        &names(&["master", "staging"]),
    )
    .unwrap();
    assert_eq!(
        report,
        "[1234] fix\n\
         Merged 1 day ago (2024-01-01T01:00:00+00:00), 1 hour after creation.\n\
         master: ✅\n\
         staging: 🚫\n"
    );
}

#[test]
fn pull_request_without_merge_commit_asks_no_branch() {
    yansi::disable();
    // The oracle would fail for this branch if it were asked.
    let oracle = Known { holding: vec![] };
    let report = check_with(
        &oracle,
        &pull_request(9999, Some(1_704_067_300), None),
        &Timestamp { secs: 1_704_070_000, nanos: 0 },
        &names(&["broken"]),
    )
    .unwrap();
    assert_eq!(report, "This pull request is very old. I can't track it!\n");
}

#[test]
fn open_pull_request_asks_no_branch() {
    yansi::disable();
    let oracle = Known { holding: vec![] };
    let report = check_with(
        &oracle,
        &pull_request(42, None, Some("abc123")),
        &Timestamp { secs: 1_704_067_200 + 120, nanos: 0 },
        &names(&["broken", "master"]),
    )
    .unwrap();
    assert_eq!(
        report,
        "[42] fix\nThis pull request hasn't been merged yet!\nCreated 2 minutes ago (2024-01-01T00:00:00+00:00).\n"
    );
}

#[test]
fn failing_branch_is_a_row_of_the_report() {
    yansi::disable();
    let oracle = Known { holding: vec![("master", "abc123")] };
    let merged = 1_704_067_200;
    let report = check_with(
        &oracle,
        &pull_request(5, Some(merged), Some("abc123")),
        &Timestamp { secs: merged, nanos: 0 },
        &names(&["master", "broken", "staging"]),
    )
    .unwrap();
    assert_eq!(
        report,
        "[5] fix\n\
         Merged 0 seconds ago (2024-01-01T00:00:00+00:00), 0 seconds after creation.\n\
         master: ✅\n\
         Error: unexpected HTTP status 500\n\
         staging: 🚫\n"
    );
}
