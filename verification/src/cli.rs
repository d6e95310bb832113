//! What the user asked for on the command line, and what follows from it:
//! the credential to use, and what to do with the watch list.

use crate::cache::{strictly_increasing, Cache};
use crate::listing::TrackedPullRequest;
use crate::text::{decimal, decimal_text};
use vstd::prelude::*;
use vstd::string::StringExecFns;
use vstd::utf8::{decode_utf8, valid_utf8};

verus! {

/// The arguments of the command line.
#[derive(Debug)]
pub struct Cli {
    /// Numerical ID of the pull request to check (e.g. 1234) or a GitHub URL to a pull request (e.g. https://github.com/nixos/nixpkgs/pull/1234).
    pub pull_request: Option<u64>,
    pub command: Option<Commands>,
    /// GitHub token
    pub token: Option<String>,
}

/// The subcommands.
#[derive(Debug)]
pub enum Commands {
    /// Add pull request(s) to track list
    Add { pull_requests: Vec<u64> },
    /// Remove pull request(s) from track list
    Remove { pull_requests: Vec<u64>, all: bool, interactive: bool },
    /// List tracked pull requests
    List { json: bool },
    /// Check tracked pull requests
    Check {  },
}

/// What came of running the helper program that knows the user's credential:
/// whether it ended well, and what it wrote.
#[derive(Debug)]
pub struct HelperOutput {
    pub success: bool,
    pub stdout: Vec<u8>,
}

/// `text` without the white space at its start and at its end, as std's
/// `str::trim` gives it.
pub uninterp spec fn trimmed_text(text: Seq<char>) -> Seq<char>;

/// Calls std: `String::from_utf8`, which turns bytes that are valid UTF-8
/// into the string that they encode, and fails on any other bytes.
#[verifier::external_body]
fn string_from_utf8(bytes: Vec<u8>) -> (r: Option<String>)
    ensures
        match r {
            Some(text) => valid_utf8(bytes@) && text@ == decode_utf8(bytes@),
            None => !valid_utf8(bytes@),
        },
{
    String::from_utf8(bytes).ok()
}

/// Calls std: `str::trim`. The result is a function of the text alone; the
/// contract gives it the name `trimmed_text` and says nothing of what it holds.
#[verifier::external_body]
fn trim(text: &str) -> (r: String)
    ensures
        r@ == trimmed_text(text@),
{
    text.trim().to_string()
}

/// The credential in what the helper program gave: what it wrote, without
/// the white space around it, if it ended well and wrote valid UTF-8.
pub open spec fn helper_token(output: Option<HelperOutput>) -> Option<Seq<char>> {
    match output {
        Some(output) => if output.success && valid_utf8(output.stdout@) {
            Some(trimmed_text(decode_utf8(output.stdout@)))
        } else {
            None
        },
        None => None,
    }
}

/// Whether the helper program has to be asked for the credential: only
/// where the command line gives none.
pub fn needs_helper(args: &Cli) -> (needed: bool)
    ensures
        needed == (args.token is None),
{
    args.token.is_none()
}

/// The credential to use: the one of the command line, or else the one that
/// the helper program gave. `helper` is `None` where the helper program was
/// not run or could not be run.
pub fn get_github_token(args: &Cli, helper: Option<HelperOutput>) -> (token: Option<String>)
    ensures
        match args.token {
            Some(given) => token == Some(given),
            None => match token {
                Some(found) => helper_token(helper) == Some(found@),
                None => helper_token(helper) is None,
            },
        },
{
    match &args.token {
        Some(given) => Some(given.clone()),
        None => match helper {
            Some(output) => {
                if !output.success {
                    return None;
                }
                match string_from_utf8(output.stdout) {
                    Some(text) => Some(trim(text.as_str())),
                    None => None,
                }
            },
            None => None,
        },
    }
}

/// What to do next for the user.
#[derive(Debug)]
pub enum Action {
    /// Check this pull request and show the report.
    Check(u64),
    /// Check every pull request of the watch list and show the reports.
    CheckAll,
    /// Show the watch list, as lines or as JSON.
    List { json: bool },
    /// Show the watch list and let the user pick what to remove from it.
    Pick,
    /// The watch list is as the user wanted it: show the message, if there
    /// is one, and store the list.
    Store(Option<String>),
    /// There is nothing to do but to show the message.
    Say(String),
}

/// What the user is told where the watch list is empty.
pub open spec fn nothing_saved_text() -> Seq<char> {
    "No pull requests saved."@
}

/// What the user is told when the whole watch list is dropped.
pub open spec fn all_removed_text(total: nat) -> Seq<char> {
    "All pull requests ("@ + decimal_text(total) + " total) removed."@
}

/// What the user is told when the picked pull requests are dropped.
pub open spec fn selected_removed_text(count: nat) -> Seq<char> {
    "Selected pull requests ("@ + decimal_text(count) + ") removed."@
}

/// What the user is told when nothing was picked.
pub open spec fn nothing_selected_text() -> Seq<char> {
    "No pull requests selected."@
}

/// The watch list after the command, and what is left to do.
///
/// Without a subcommand the pull request of the command line is checked.
/// `Add` and `Remove` change the list at once. `List`, `Check` and a
/// `Remove` that lets the user pick need the list to hold something, and
/// leave it as it is.
pub open spec fn command_outcome(args: Cli, before: Seq<u64>, after: Seq<u64>, action: Action) -> bool {
    match args.command {
        None => after == before && match args.pull_request {
            Some(id) => action == Action::Check(id),
            None => false,
        },
        Some(Commands::Add { pull_requests }) => {
            &&& strictly_increasing(after)
            &&& after.to_set() == before.to_set().union(pull_requests@.to_set())
            &&& action == Action::Store(None)
        },
        Some(Commands::Remove { pull_requests, all, interactive }) => if interactive {
            &&& after == before
            &&& if before.len() == 0 {
                action matches Action::Say(message) && message@ == nothing_saved_text()
            } else {
                action == Action::Pick
            }
        } else if all {
            &&& after == Seq::<u64>::empty()
            &&& action matches Action::Store(Some(message))
            &&& message@ == all_removed_text(before.len())
        } else {
            &&& after == before.filter(|id: u64| !pull_requests@.contains(id))
            &&& action == Action::Store(None)
        },
        Some(Commands::List { json }) => {
            &&& after == before
            &&& if before.len() == 0 {
                action matches Action::Say(message) && message@ == nothing_saved_text()
            } else {
                action == (Action::List { json })
            }
        },
        Some(Commands::Check {  }) => {
            &&& after == before
            &&& if before.len() == 0 {
                action matches Action::Say(message) && message@ == nothing_saved_text()
            } else {
                action == Action::CheckAll
            }
        },
    }
}

/// Carries out what of the command concerns the watch list, and says what is
/// left to do.
pub fn run_command(args: &Cli, cache: &mut Cache) -> (action: Action)
    requires
        args.command is None ==> args.pull_request is Some,
    ensures
        command_outcome(*args, old(cache)@, final(cache)@, action),
{
    match &args.command {
        None => match args.pull_request {
            Some(id) => Action::Check(id),
            None => Action::CheckAll,
        },
        Some(Commands::Add { pull_requests }) => {
            cache.add(pull_requests);
            Action::Store(None)
        },
        Some(Commands::Remove { pull_requests, all, interactive }) => {
            if *interactive {
                if cache.is_empty() {
                    Action::Say(String::from_str("No pull requests saved."))
                } else {
                    Action::Pick
                }
            } else if *all {
                let mut message = String::from_str("All pull requests (");
                message.append(decimal(cache.len() as u64).as_str());
                message.append(" total) removed.");
                cache.clear();
                Action::Store(Some(message))
            } else {
                cache.remove(pull_requests);
                Action::Store(None)
            }
        },
        Some(Commands::List { json }) => {
            if cache.is_empty() {
                Action::Say(String::from_str("No pull requests saved."))
            } else {
                Action::List { json: *json }
            }
        },
        Some(Commands::Check {  }) => {
            if cache.is_empty() {
                Action::Say(String::from_str("No pull requests saved."))
            } else {
                Action::CheckAll
            }
        },
    }
}

/// The numbers of the entries that the user picked: for each position in
/// `selection`, the number of the entry shown at that position.
pub open spec fn picked_ids(shown: Seq<TrackedPullRequest>, selection: Seq<usize>) -> Seq<u64> {
    Seq::new(selection.len(), |k: int| shown[selection[k] as int].id)
}

/// Drops from the watch list what the user picked from the entries that were
/// shown. `selection` holds the positions of the picked entries, or `None`
/// where the user left without picking. The list is stored only if the
/// answer is `Store`.
pub fn remove_selected(
    cache: &mut Cache,
    shown: &Vec<TrackedPullRequest>,
    selection: &Option<Vec<usize>>,
) -> (action: Action)
    requires
        match *selection {
            Some(picked) => forall|k: int| 0 <= k < picked.len() ==> picked[k] < shown.len(),
            None => true,
        },
    ensures
        match *selection {
            Some(picked) => {
                &&& final(cache)@ == old(cache)@.filter(
                    |id: u64| !picked_ids(shown@, picked@).contains(id),
                )
                &&& action matches Action::Store(Some(message))
                &&& message@ == selected_removed_text(picked.len() as nat)
            },
            None => {
                &&& final(cache)@ == old(cache)@
                &&& action matches Action::Say(message)
                &&& message@ == nothing_selected_text()
            },
        },
{
    match selection {
        Some(picked) => {
            let mut selected_pull_requests: Vec<u64> = Vec::new();
            let mut k: usize = 0;
            while k < picked.len()
                invariant
                    k <= picked.len(),
                    forall|m: int| 0 <= m < picked.len() ==> picked[m] < shown.len(),
                    selected_pull_requests@ == picked_ids(shown@, picked@).take(k as int),
                decreases picked.len() - k,
            {
                selected_pull_requests.push(shown[picked[k]].id);
                proof {
                    assert(selected_pull_requests@ =~= picked_ids(shown@, picked@).take(k + 1));
                }
                k += 1;
            }
            proof {
                assert(selected_pull_requests@ =~= picked_ids(shown@, picked@));
            }
            cache.remove(&selected_pull_requests);
            let mut message = String::from_str("Selected pull requests (");
            message.append(decimal(picked.len() as u64).as_str());
            message.append(") removed.");
            Action::Store(Some(message))
        },
        None => Action::Say(String::from_str("No pull requests selected.")),
    }
}

} // verus!
