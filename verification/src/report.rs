//! The report on one pull request: whether it was merged, when, and which of
//! the tracked branches hold its merge commit.

use crate::error::{CheckError, NixpkgsTrackError};
use crate::fanout::{in_order, is_arrangement, lemma_arrival_order_is_irrelevant};
use crate::model::PullRequest;
use crate::text::{decimal, decimal_text};
use crate::time::{rfc3339_text, whole_seconds_between, Timestamp};
use crate::utils::{format_seconds_to_time_ago, time_ago_text};
use vstd::prelude::*;
use vstd::string::StringExecFns;
use yansi::hyperlink::HyperlinkExt;

verus! {

/// The branches that a merge commit is looked for in, in the order of the report.
pub open spec fn default_branch_names() -> Seq<Seq<char>> {
    seq![
        "master"@,
        "staging"@,
        "staging-next"@,
        "nixpkgs-unstable"@,
        "nixos-unstable-small"@,
        "nixos-unstable"@,
    ]
}

/// The tracked branches, in the order in which the report lists them.
pub fn default_branches() -> (branches: Vec<String>)
    ensures
        branches.deep_view() == default_branch_names(),
{
    let mut branches: Vec<String> = Vec::new();
    branches.push(String::from_str("master"));
    branches.push(String::from_str("staging"));
    branches.push(String::from_str("staging-next"));
    branches.push(String::from_str("nixpkgs-unstable"));
    branches.push(String::from_str("nixos-unstable-small"));
    branches.push(String::from_str("nixos-unstable"));
    proof {
        assert(branches.deep_view() =~= default_branch_names());
    }
    branches
}

/// `text` as a terminal hyperlink to `url`: an opening escape sequence that
/// carries the target, the text, and the closing sequence.
pub open spec fn linked_text(text: Seq<char>, url: Seq<char>) -> Seq<char> {
    "\x1B]8;;"@ + url + "\x1B\\"@ + text + "\x1B]8;;\x1B\\"@
}

/// `label` shows `text`, either bare or as a hyperlink to `url`.
pub open spec fn is_label_of(label: Seq<char>, text: Seq<char>, url: Seq<char>) -> bool {
    label == text || label == linked_text(text, url)
}

/// Calls yansi: `HyperlinkExt::link` on `text` with the target `url`, and the
/// `Display` of what it returns. yansi writes the text between the two escape
/// sequences of a terminal hyperlink while its styling is switched on, and
/// the bare text while it is switched off; the switch is global, so the
/// contract allows both.
#[verifier::external_body]
pub(crate) fn hyperlink(text: &str, url: &str) -> (label: String)
    ensures
        is_label_of(label@, text@, url@),
{
    format!("{}", text.link(url))
}

/// The first line of a report: the number in brackets, then the title as `label` shows it.
pub open spec fn heading_text(number: u64, label: Seq<char>) -> Seq<char> {
    "["@ + decimal_text(number as nat) + "] "@ + label
}

/// The number of a pull request in brackets, then `label`.
pub fn heading(number: u64, label: &str) -> (s: String)
    ensures
        s@ == heading_text(number, label@),
{
    let mut s = String::from_str("[");
    s.append(decimal(number).as_str());
    s.append("] ");
    s.append(label);
    s
}

/// The row of one branch: its name with a mark that says whether it holds the
/// commit, or the error that kept the answer away.
pub open spec fn branch_row_text(
    branch: Seq<char>,
    outcome: Result<bool, NixpkgsTrackError>,
) -> Seq<char> {
    match outcome {
        Ok(true) => branch + ": ✅\n"@,
        Ok(false) => branch + ": 🚫\n"@,
        Err(err) => "Error: "@ + err.message_text() + "\n"@,
    }
}

/// The rows of the first `count` branches, one below the other.
pub open spec fn branch_rows_text(
    branches: Seq<Seq<char>>,
    outcomes: Seq<Result<bool, NixpkgsTrackError>>,
    count: nat,
) -> Seq<char>
    decreases count,
{
    if count == 0 {
        Seq::<char>::empty()
    } else {
        branch_rows_text(branches, outcomes, (count - 1) as nat) + branch_row_text(
            branches[count - 1],
            outcomes[count - 1],
        )
    }
}

/// How many rows a report has: one for each branch that has an outcome.
pub open spec fn row_count(
    branches: Seq<Seq<char>>,
    outcomes: Seq<Result<bool, NixpkgsTrackError>>,
) -> nat {
    if branches.len() <= outcomes.len() {
        branches.len()
    } else {
        outcomes.len()
    }
}

/// How long ago `then` was, seen from `now`, in words; `None` where the
/// seconds between the two do not fit in 64 bits.
pub open spec fn ago_text(now: Timestamp, then: Timestamp) -> Option<Seq<char>> {
    let seconds = whole_seconds_between(now, then);
    if i64::MIN <= seconds <= i64::MAX {
        Some(time_ago_text(seconds))
    } else {
        None
    }
}

/// The line on a merge: how long ago it was, its date, and how long after
/// the pull request was opened.
pub open spec fn merged_line_text(
    now: Timestamp,
    created_at: Timestamp,
    merged_at: Timestamp,
) -> Option<Seq<char>> {
    match (
        ago_text(now, merged_at),
        rfc3339_text(merged_at.secs as int, merged_at.nanos as int),
        ago_text(merged_at, created_at),
    ) {
        (Some(ago), Some(date), Some(waited)) => Some(
            "Merged "@ + ago + " ago ("@ + date + "), "@ + waited + " after creation.\n"@,
        ),
        _ => None,
    }
}

/// The two lines on a pull request that is still open.
pub open spec fn unmerged_text(now: Timestamp, created_at: Timestamp) -> Option<Seq<char>> {
    match (
        ago_text(now, created_at),
        rfc3339_text(created_at.secs as int, created_at.nanos as int),
    ) {
        (Some(ago), Some(date)) => Some(
            "This pull request hasn't been merged yet!\n"@ + "Created "@ + ago + " ago ("@ + date
                + ").\n"@,
        ),
        _ => None,
    }
}

/// The whole report on a pull request, with its title shown as `label`.
///
/// A pull request without a merge commit gets one line that says so. Any
/// other report starts with the heading. For a merged pull request the line on
/// the merge follows, then one row for each branch, in the order of
/// `branches`. For an open one the lines that say so follow, and no rows.
/// `None` where a date or a duration in it cannot be written; that is also
/// so for a merged pull request that has a merge commit and no time of merge.
pub open spec fn report_text(
    pr: PullRequest,
    now: Timestamp,
    branches: Seq<Seq<char>>,
    outcomes: Seq<Result<bool, NixpkgsTrackError>>,
    label: Seq<char>,
) -> Option<Seq<char>> {
    if pr.merge_commit_sha is None {
        Some("This pull request is very old. I can't track it!\n"@)
    } else if pr.merged {
        match pr.merged_at {
            Some(merged_at) => match merged_line_text(now, pr.created_at, merged_at) {
                Some(line) => Some(
                    heading_text(pr.number, label) + "\n"@ + line + branch_rows_text(
                        branches,
                        outcomes,
                        row_count(branches, outcomes),
                    ),
                ),
                None => None,
            },
            None => None,
        }
    } else {
        match unmerged_text(now, pr.created_at) {
            Some(lines) => Some(heading_text(pr.number, label) + "\n"@ + lines),
            None => None,
        }
    }
}

/// The commit to look for in the branches: the merge commit of a merged pull
/// request. `None` where the report needs no branch to be asked.
pub open spec fn tracked_commit(pr: PullRequest) -> Option<Seq<char>> {
    match pr.merge_commit_sha {
        Some(sha) => if pr.merged {
            Some(sha@)
        } else {
            None
        },
        None => None,
    }
}

/// The rows of a report as a list: one row for each branch that has an
/// outcome, in the order of the branches.
pub open spec fn branch_rows(
    branches: Seq<Seq<char>>,
    outcomes: Seq<Result<bool, NixpkgsTrackError>>,
) -> Seq<Seq<char>> {
    Seq::new(row_count(branches, outcomes), |i: int| branch_row_text(branches[i], outcomes[i]))
}

/// The rows of a report follow the branches: the text of the first `count`
/// rows is the row of the first branch, then the row of the second, and so
/// on, each with the outcome at its own position.
pub proof fn lemma_rows_follow_the_branches(
    branches: Seq<Seq<char>>,
    outcomes: Seq<Result<bool, NixpkgsTrackError>>,
    count: nat,
)
    requires
        count <= row_count(branches, outcomes),
    ensures
        branch_rows_text(branches, outcomes, count) == branch_rows(branches, outcomes).take(
            count as int,
        ).flatten_alt(),
    decreases count,
{
    let rows = branch_rows(branches, outcomes);
    if count == 0 {
        assert(rows.take(0).len() == 0);
    } else {
        lemma_rows_follow_the_branches(branches, outcomes, (count - 1) as nat);
        assert(rows.take(count as int).drop_last() =~= rows.take(count - 1));
        assert(rows.take(count as int).last() == branch_row_text(
            branches[count - 1],
            outcomes[count - 1],
        ));
    }
}

/// The report on a merged pull request lists every branch: where the line on
/// the merge can be written and every branch has its outcome, the report is
/// the heading, the line on the merge, and one row for each branch in the
/// order of the branches. A branch whose question failed has its row like
/// any other, at its own place, and the row says `Error:` and why.
pub proof fn lemma_merged_report_lists_every_branch(
    pr: PullRequest,
    now: Timestamp,
    branches: Seq<Seq<char>>,
    outcomes: Seq<Result<bool, NixpkgsTrackError>>,
    label: Seq<char>,
)
    requires
        pr.merge_commit_sha is Some,
        pr.merged,
        pr.merged_at is Some,
        merged_line_text(now, pr.created_at, pr.merged_at->0) is Some,
        outcomes.len() == branches.len(),
    ensures
        report_text(pr, now, branches, outcomes, label) == Some(
            heading_text(pr.number, label) + "\n"@ + merged_line_text(
                now,
                pr.created_at,
                pr.merged_at->0,
            )->0 + branch_rows(branches, outcomes).flatten_alt(),
        ),
        branch_rows(branches, outcomes).len() == branches.len(),
        forall|i: int|
            0 <= i < branches.len() ==> #[trigger] branch_rows(branches, outcomes)[i]
                == branch_row_text(branches[i], outcomes[i]),
        forall|i: int|
            0 <= i < branches.len() && outcomes[i] is Err ==> #[trigger] branch_rows(
                branches,
                outcomes,
            )[i] == "Error: "@ + outcomes[i]->Err_0.message_text() + "\n"@,
{
    let rows = branch_rows(branches, outcomes);
    lemma_rows_follow_the_branches(branches, outcomes, row_count(branches, outcomes));
    assert(rows.take(rows.len() as int) =~= rows);
}

/// The order in which the answers arrive does not show in the report: if
/// the branch at position `i` was answered with `outcomes[i]` and every
/// branch was answered once, the report written from the answers put back in
/// order is the report written from `outcomes`.
pub proof fn lemma_report_ignores_arrival_order(
    pr: PullRequest,
    now: Timestamp,
    branches: Seq<Seq<char>>,
    outcomes: Seq<Result<bool, NixpkgsTrackError>>,
    arrived: Seq<(usize, Result<bool, NixpkgsTrackError>)>,
    ordered: Seq<Result<bool, NixpkgsTrackError>>,
    label: Seq<char>,
)
    requires
        is_arrangement(arrived),
        arrived.len() == outcomes.len(),
        forall|j: int| 0 <= j < arrived.len() ==> (#[trigger] arrived[j]).1 == outcomes[arrived[j].0 as int],
        in_order(arrived, ordered),
    ensures
        report_text(pr, now, branches, ordered, label) == report_text(
            pr,
            now,
            branches,
            outcomes,
            label,
        ),
{
    lemma_arrival_order_is_irrelevant(outcomes, arrived, ordered);
}

/// The rows for two branches: the row of the first, then the row of the second.
pub proof fn lemma_rows_of_two_branches(
    first: Seq<char>,
    second: Seq<char>,
    first_outcome: Result<bool, NixpkgsTrackError>,
    second_outcome: Result<bool, NixpkgsTrackError>,
)
    ensures
        branch_rows_text(seq![first, second], seq![first_outcome, second_outcome], 2)
            == branch_row_text(first, first_outcome) + branch_row_text(second, second_outcome),
        row_count(seq![first, second], seq![first_outcome, second_outcome]) == 2,
{
    let branches = seq![first, second];
    let outcomes = seq![first_outcome, second_outcome];
    reveal_with_fuel(branch_rows_text, 3);
    assert(branch_rows_text(branches, outcomes, 0) =~= Seq::<char>::empty());
    assert(branch_rows_text(branches, outcomes, 1) =~= branch_row_text(first, first_outcome));
    assert(branch_rows_text(branches, outcomes, 2) =~= branch_row_text(first, first_outcome)
        + branch_row_text(second, second_outcome));
}

/// Where no commit is looked for, the report has no rows: it is the same
/// whatever the branches are and whatever they answered.
pub proof fn lemma_report_without_commit_has_no_rows(
    pr: PullRequest,
    now: Timestamp,
    branches: Seq<Seq<char>>,
    outcomes: Seq<Result<bool, NixpkgsTrackError>>,
    label: Seq<char>,
)
    requires
        tracked_commit(pr) is None,
    ensures
        report_text(pr, now, branches, outcomes, label) == report_text(
            pr,
            now,
            Seq::<Seq<char>>::empty(),
            Seq::<Result<bool, NixpkgsTrackError>>::empty(),
            label,
        ),
{
}

/// Says whether the branches have to be asked about this pull request, and
/// about which commit.
pub fn commit_to_track(pr: &PullRequest) -> (commit: Option<String>)
    ensures
        match commit {
            Some(sha) => tracked_commit(*pr) == Some(sha@),
            None => tracked_commit(*pr) is None,
        },
{
    match &pr.merge_commit_sha {
        Some(sha) => if pr.merged {
            Some(sha.clone())
        } else {
            None
        },
        None => None,
    }
}

/// Writes the row of one branch.
pub fn branch_row(branch: &str, outcome: &Result<bool, NixpkgsTrackError>) -> (s: String)
    ensures
        s@ == branch_row_text(branch@, *outcome),
{
    match outcome {
        Ok(has_pull_request) => {
            let mut s = String::from_str(branch);
            if *has_pull_request {
                s.append(": ✅\n");
            } else {
                s.append(": 🚫\n");
            }
            s
        },
        Err(err) => {
            let mut s = String::from_str("Error: ");
            s.append(err.message().as_str());
            s.append("\n");
            s
        },
    }
}

/// Writes how long ago `then` was, seen from `now`.
fn ago(now: &Timestamp, then: &Timestamp) -> (r: Option<String>)
    ensures
        match r {
            Some(s) => ago_text(*now, *then) == Some(s@),
            None => ago_text(*now, *then) is None,
        },
{
    match now.seconds_since(then) {
        Some(seconds) => Some(format_seconds_to_time_ago(seconds)),
        None => None,
    }
}

/// Writes the line on a merge.
fn merged_line(now: &Timestamp, created_at: &Timestamp, merged_at: &Timestamp) -> (r: Option<
    String,
>)
    ensures
        match r {
            Some(s) => merged_line_text(*now, *created_at, *merged_at) == Some(s@),
            None => merged_line_text(*now, *created_at, *merged_at) is None,
        },
{
    let merged_at_ago = match ago(now, merged_at) {
        Some(text) => text,
        None => {
            return None;
        },
    };
    let merged_at_date = match merged_at.to_rfc3339() {
        Some(text) => text,
        None => {
            return None;
        },
    };
    let creation_to_merge_time = match ago(merged_at, created_at) {
        Some(text) => text,
        None => {
            return None;
        },
    };
    let mut s = String::from_str("Merged ");
    s.append(merged_at_ago.as_str());
    s.append(" ago (");
    s.append(merged_at_date.as_str());
    s.append("), ");
    s.append(creation_to_merge_time.as_str());
    s.append(" after creation.\n");
    Some(s)
}

/// Writes the lines on a pull request that is still open.
fn unmerged(now: &Timestamp, created_at: &Timestamp) -> (r: Option<String>)
    ensures
        match r {
            Some(s) => unmerged_text(*now, *created_at) == Some(s@),
            None => unmerged_text(*now, *created_at) is None,
        },
{
    let created_at_ago = match ago(now, created_at) {
        Some(text) => text,
        None => {
            return None;
        },
    };
    let created_at_date = match created_at.to_rfc3339() {
        Some(text) => text,
        None => {
            return None;
        },
    };
    let mut s = String::from_str("This pull request hasn't been merged yet!\n");
    s.append("Created ");
    s.append(created_at_ago.as_str());
    s.append(" ago (");
    s.append(created_at_date.as_str());
    s.append(").\n");
    Some(s)
}

/// Writes the report on `pr` with its title shown as `label`, at the time
/// `now`, from what each branch answered. `outcomes` holds the answers in the
/// order of `branches`.
///
/// Fails with `FormatFailed`, and only with it, where a date or a duration of
/// the report cannot be written, or the time of a merge is missing.
pub fn render_report(
    pr: &PullRequest,
    now: &Timestamp,
    branches: &Vec<String>,
    outcomes: &Vec<Result<bool, NixpkgsTrackError>>,
    label: &str,
) -> (r: Result<String, CheckError>)
    ensures
        match r {
            Ok(s) => report_text(*pr, *now, branches.deep_view(), outcomes@, label@) == Some(s@),
            Err(err) => err is FormatFailed && report_text(
                *pr,
                *now,
                branches.deep_view(),
                outcomes@,
                label@,
            ) is None,
        },
{
    if pr.merge_commit_sha.is_none() {
        return Ok(String::from_str("This pull request is very old. I can't track it!\n"));
    }
    let mut output = heading(pr.number, label);
    output.append("\n");
    if pr.merged {
        let merged_at = match &pr.merged_at {
            Some(merged_at) => merged_at,
            None => {
                return Err(CheckError::FormatFailed);
            },
        };
        match merged_line(now, &pr.created_at, merged_at) {
            Some(line) => {
                output.append(line.as_str());
            },
            None => {
                return Err(CheckError::FormatFailed);
            },
        }
        let ghost names = branches.deep_view();
        let ghost top = output@;
        let mut i: usize = 0;
        while i < branches.len() && i < outcomes.len()
            invariant
                i <= branches.len(),
                i <= outcomes.len(),
                names == branches.deep_view(),
                output@ == top + branch_rows_text(names, outcomes@, i as nat),
            decreases branches.len() - i,
        {
            proof {
                assert(names[i as int] == branches[i as int]@);
            }
            let row = branch_row(branches[i].as_str(), &outcomes[i]);
            output.append(row.as_str());
            proof {
                assert(output@ =~= top + branch_rows_text(names, outcomes@, (i + 1) as nat));
            }
            i += 1;
        }
        proof {
            assert(i == row_count(names, outcomes@));
        }
        Ok(output)
    } else {
        match unmerged(now, &pr.created_at) {
            Some(lines) => {
                output.append(lines.as_str());
                Ok(output)
            },
            None => Err(CheckError::FormatFailed),
        }
    }
}

/// Writes the report on `pr` as [`render_report`] does, with the title as a
/// hyperlink to the pull request's page where the terminal styling is on, and
/// bare where it is off.
pub fn check_report(
    pr: &PullRequest,
    now: &Timestamp,
    branches: &Vec<String>,
    outcomes: &Vec<Result<bool, NixpkgsTrackError>>,
) -> (r: Result<String, CheckError>)
    ensures
        match r {
            Ok(s) => exists|label: Seq<char>|
                is_label_of(label, pr.title@, pr.html_url@) && #[trigger] report_text(
                    *pr,
                    *now,
                    branches.deep_view(),
                    outcomes@,
                    label,
                ) == Some(s@),
            Err(err) => err is FormatFailed && report_text(
                *pr,
                *now,
                branches.deep_view(),
                outcomes@,
                pr.title@,
            ) is None,
        },
{
    let label = hyperlink(pr.title.as_str(), pr.html_url.as_str());
    render_report(pr, now, branches, outcomes, label.as_str())
}

} // verus!
