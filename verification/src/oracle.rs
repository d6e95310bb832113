//! The one question behind the tracker, "does this branch contain this
//! commit?", as a capability: whoever can answer it can drive a check. The
//! local clone answers it here; an answer from the remote is put together in
//! [`crate::remote`] from the response that the caller obtained.

use crate::error::{CheckError, LocalRepositoryError, NixpkgsTrackError};
use crate::model::PullRequest;
use crate::report::{check_report, commit_to_track, is_label_of, report_text, tracked_commit};
use crate::time::Timestamp;
use crate::tracker::{oid_text, NixpkgsTracker};
use vstd::prelude::*;

verus! {

/// Something that can say whether a branch contains a commit.
pub trait ContainmentOracle {
    /// The answers that the oracle may give to one question. An oracle that
    /// looks at the world may answer the same question differently at
    /// different times, so this is a relation and no function. Unless an
    /// oracle says otherwise, it may give any answer.
    open spec fn may_answer(
        &self,
        branch: Seq<char>,
        commit: Seq<char>,
        answer: Result<bool, NixpkgsTrackError>,
    ) -> bool {
        true
    }

    /// Whether `branch` contains `commit`.
    fn contains(&self, branch: &str, commit: &str) -> (answer: Result<bool, NixpkgsTrackError>)
        ensures
            self.may_answer(branch@, commit@, answer),
    ;
}

/// The failures that the local clone may answer a question with.
pub open spec fn is_local_failure(err: NixpkgsTrackError) -> bool {
    err matches NixpkgsTrackError::LocalRepository(failure) && (failure is UnresolvedCommit
        || failure is UnresolvedBranch || failure is Graph)
}

/// The answer of the local clone as an answer of an oracle: the same yes or
/// no, and its failure as a failure of the local repository.
pub open spec fn local_answer_of(found: Result<bool, LocalRepositoryError>) -> Result<
    bool,
    NixpkgsTrackError,
> {
    match found {
        Ok(contained) => Ok(contained),
        Err(failure) => Err(NixpkgsTrackError::LocalRepository(failure)),
    }
}

/// Hands the answer of the local clone on as the answer of an oracle.
pub fn local_answer(found: Result<bool, LocalRepositoryError>) -> (answer: Result<
    bool,
    NixpkgsTrackError,
>)
    ensures
        answer == local_answer_of(found),
{
    match found {
        Ok(contained) => Ok(contained),
        Err(failure) => Err(NixpkgsTrackError::LocalRepository(failure)),
    }
}

impl ContainmentOracle for NixpkgsTracker {
    /// The local clone answers yes or no as its history stands, or fails
    /// because the commit or the branch is unknown to it or the history
    /// between them cannot be walked. For a commit hash that denotes no
    /// object id it has one answer only: the commit is unresolved.
    open spec fn may_answer(
        &self,
        branch: Seq<char>,
        commit: Seq<char>,
        answer: Result<bool, NixpkgsTrackError>,
    ) -> bool {
        &&& answer matches Err(err) ==> is_local_failure(err)
        &&& oid_text(commit) is None ==> (answer matches Err(
            NixpkgsTrackError::LocalRepository(failure),
        ) && failure is UnresolvedCommit)
    }

    fn contains(&self, branch: &str, commit: &str) -> (answer: Result<bool, NixpkgsTrackError>) {
        local_answer(self.branch_contains_sha(branch, commit))
    }
}

/// `outcomes` holds, for each branch and in the order of `branches`, an
/// answer that `oracle` may give about that branch and `commit`.
pub open spec fn are_answers_of<O: ContainmentOracle>(
    oracle: &O,
    branches: Seq<Seq<char>>,
    commit: Seq<char>,
    outcomes: Seq<Result<bool, NixpkgsTrackError>>,
) -> bool {
    &&& outcomes.len() == branches.len()
    &&& forall|i: int|
        0 <= i < branches.len() ==> oracle.may_answer(branches[i], commit, #[trigger] outcomes[i])
}

/// Asks `oracle` about every branch, one after the other. A failure for one
/// branch is kept as the outcome of that branch, and the branches after it
/// are asked all the same.
pub fn ask_each<O: ContainmentOracle>(oracle: &O, branches: &Vec<String>, commit: &str) -> (outcomes:
    Vec<Result<bool, NixpkgsTrackError>>)
    ensures
        are_answers_of(oracle, branches.deep_view(), commit@, outcomes@),
{
    let ghost names = branches.deep_view();
    let mut outcomes: Vec<Result<bool, NixpkgsTrackError>> = Vec::new();
    let mut i: usize = 0;
    while i < branches.len()
        invariant
            i <= branches.len(),
            names == branches.deep_view(),
            outcomes.len() == i,
            forall|k: int| 0 <= k < i ==> oracle.may_answer(names[k], commit@, #[trigger] outcomes[k]),
        decreases branches.len() - i,
    {
        proof {
            assert(names[i as int] == branches[i as int]@);
        }
        let answer = oracle.contains(branches[i].as_str(), commit);
        outcomes.push(answer);
        i += 1;
    }
    outcomes
}

/// Checks one pull request with `oracle`: where the pull request has a commit
/// to look for, every branch is asked about it, and the report is written
/// from the answers; where it has none, no branch is asked.
///
/// Fails with `FormatFailed`, and only with it, where a date or a duration of
/// the report cannot be written or the time of a merge is missing, whatever
/// the branches answered.
pub fn check_with<O: ContainmentOracle>(
    oracle: &O,
    pr: &PullRequest,
    now: &Timestamp,
    branches: &Vec<String>,
) -> (r: Result<String, CheckError>)
    ensures
        match r {
            Ok(report) => exists|outcomes: Seq<Result<bool, NixpkgsTrackError>>, label: Seq<char>|
                {
                    &&& match tracked_commit(*pr) {
                        Some(commit) => are_answers_of(
                            oracle,
                            branches.deep_view(),
                            commit,
                            outcomes,
                        ),
                        None => outcomes.len() == 0,
                    }
                    &&& is_label_of(label, pr.title@, pr.html_url@)
                    &&& #[trigger] report_text(*pr, *now, branches.deep_view(), outcomes, label)
                        == Some(report@)
                },
            Err(err) => err is FormatFailed && report_text(
                *pr,
                *now,
                branches.deep_view(),
                Seq::<Result<bool, NixpkgsTrackError>>::empty(),
                pr.title@,
            ) is None,
        },
{
    let outcomes = match commit_to_track(pr) {
        Some(commit_sha) => ask_each(oracle, branches, commit_sha.as_str()),
        None => Vec::new(),
    };
    check_report(pr, now, branches, &outcomes)
}

} // verus!
