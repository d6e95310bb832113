//! Containment answered from a local clone of Nixpkgs: a branch contains a
//! commit if the commit is the branch's tip or an ancestor of it.

use crate::error::LocalRepositoryError;
use crate::text::same_text;
use git2::{BranchType, Oid, Repository, Worktree, WorktreePruneOptions};
use std::path::PathBuf;
use vstd::prelude::*;
use vstd::string::StringExecFns;

verus! {

#[verifier::external_type_specification]
#[verifier::external_body]
pub struct ExRepository(git2::Repository);

#[verifier::external_type_specification]
#[verifier::external_body]
pub struct ExWorktree(git2::Worktree);

#[verifier::external_type_specification]
#[verifier::external_body]
pub struct ExGitError(git2::Error);

#[verifier::external_type_specification]
#[verifier::external_body]
pub struct ExPathBuf(std::path::PathBuf);

/// The address that a clone of Nixpkgs was made from.
pub open spec fn nixpkgs_url() -> Seq<char> {
    "https://github.com/NixOS/nixpkgs.git"@
}

/// The identity of a commit that the clone holds: its hash in hexadecimal.
#[derive(Clone, Debug)]
pub struct CommitId {
    pub hex: String,
}

impl View for CommitId {
    type V = Seq<char>;

    open spec fn view(&self) -> Seq<char> {
        self.hex@
    }
}

/// A clone of Nixpkgs with a working tree of the tracker's own, which is
/// brought up to date when the tracker is made.
pub struct NixpkgsTracker {
    source: Repository,
    repository: Repository,
}

/// Whether a branch whose tip is `tip` contains `commit`, where
/// `tip_descends` says whether the tip is a proper descendant of the commit.
/// A commit is no proper descendant of itself, so equality counts on its own.
pub open spec fn contains_commit(tip: Seq<char>, commit: Seq<char>, tip_descends: bool) -> bool {
    tip == commit || tip_descends
}

/// A branch contains its own tip.
pub proof fn lemma_containment_reflexive(commit: Seq<char>, tip_descends: bool)
    ensures
        contains_commit(commit, commit, tip_descends),
{
}

/// A branch contains every commit that its tip properly descends from.
pub proof fn lemma_containment_of_ancestor(tip: Seq<char>, commit: Seq<char>)
    ensures
        contains_commit(tip, commit, true),
{
}

/// Whether one of the two addresses is that of Nixpkgs.
pub open spec fn is_nixpkgs_clone(origin: Option<Seq<char>>, upstream: Option<Seq<char>>) -> bool {
    origin == Some(nixpkgs_url()) || upstream == Some(nixpkgs_url())
}

/// Decides from the addresses of the remotes `origin` and `upstream`, where
/// the repository has them, whether it is a clone of Nixpkgs.
pub fn remotes_name_nixpkgs(origin: &Option<String>, upstream: &Option<String>) -> (b: bool)
    ensures
        b == is_nixpkgs_clone(
            match *origin {
                Some(url) => Some(url@),
                None => None,
            },
            match *upstream {
                Some(url) => Some(url@),
                None => None,
            },
        ),
{
    let origin_matches = match origin {
        Some(url) => same_text(url.as_str(), "https://github.com/NixOS/nixpkgs.git"),
        None => false,
    };
    let upstream_matches = match upstream {
        Some(url) => same_text(url.as_str(), "https://github.com/NixOS/nixpkgs.git"),
        None => false,
    };
    origin_matches || upstream_matches
}

/// Takes a repository for a clone of Nixpkgs, or refuses it: a repository in
/// which neither `origin` nor `upstream` has the address of Nixpkgs is
/// refused with `NotNixpkgs`.
pub fn nixpkgs_clone_or_refusal(origin: &Option<String>, upstream: &Option<String>) -> (r: Result<
    (),
    LocalRepositoryError,
>)
    ensures
        r == (if is_nixpkgs_clone(
            match *origin {
                Some(url) => Some(url@),
                None => None,
            },
            match *upstream {
                Some(url) => Some(url@),
                None => None,
            },
        ) {
            Ok::<(), LocalRepositoryError>(())
        } else {
            Err::<(), LocalRepositoryError>(LocalRepositoryError::NotNixpkgs)
        }),
{
    if remotes_name_nixpkgs(origin, upstream) {
        Ok(())
    } else {
        Err(LocalRepositoryError::NotNixpkgs)
    }
}

/// The names that the tracker hands to git.
#[derive(Clone, Debug)]
pub struct TrackerNames {
    /// The two remotes whose addresses say whether a repository is a clone
    /// of Nixpkgs.
    pub first_remote: String,
    pub second_remote: String,
    /// The name of the tracker's working tree, and of the directory in the
    /// user's cache directory that holds it.
    pub worktree: String,
    /// The remote that the working tree is brought up to date from, and the
    /// branch that is fetched from it.
    pub fetch_remote: String,
    pub fetch_branch: String,
}

/// What the tracker hands to git: it looks at the remotes `origin` and
/// `upstream`, keeps a working tree named `nixpkgs-track`, and fetches
/// `master` from `origin`.
pub open spec fn are_tracker_names(names: TrackerNames) -> bool {
    &&& names.first_remote@ == "origin"@
    &&& names.second_remote@ == "upstream"@
    &&& names.worktree@ == "nixpkgs-track"@
    &&& names.fetch_remote@ == "origin"@
    &&& names.fetch_branch@ == "master"@
}

/// The names that the tracker hands to git.
pub fn tracker_names() -> (names: TrackerNames)
    ensures
        are_tracker_names(names),
{
    TrackerNames {
        first_remote: String::from_str("origin"),
        second_remote: String::from_str("upstream"),
        worktree: String::from_str("nixpkgs-track"),
        fetch_remote: String::from_str("origin"),
        fetch_branch: String::from_str("master"),
    }
}

/// Decides containment from the two commits and, where they differ, from what
/// the walk through the history said.
pub fn decide_containment(tip: &CommitId, commit: &CommitId, tip_descends: bool) -> (b: bool)
    ensures
        b == contains_commit(tip@, commit@, tip_descends),
{
    tip.hex == commit.hex || tip_descends
}

/// Concludes containment from the two commits and from what the walk through
/// the history gave: whether the tip descends from the commit, or the reason
/// why the walk failed.
pub fn conclude_containment(tip: &CommitId, commit: &CommitId, walk: Result<bool, String>) -> (r:
    Result<bool, LocalRepositoryError>)
    ensures
        r == match walk {
            Ok(tip_descends) => Ok::<bool, LocalRepositoryError>(
                contains_commit(tip@, commit@, tip_descends),
            ),
            Err(cause) => Err(LocalRepositoryError::Graph(cause)),
        },
{
    match walk {
        Ok(tip_descends) => Ok(decide_containment(tip, commit, tip_descends)),
        Err(cause) => Err(LocalRepositoryError::Graph(cause)),
    }
}

impl NixpkgsTracker {
    /// Opens the clone at `original_path`, makes sure that it is a clone of
    /// Nixpkgs, gives it a working tree in the user's cache directory, and
    /// fetches `master` from `origin` into it.
    ///
    /// What comes back depends on the disk and on the network. Whatever
    /// happens there, a repository that is no clone of Nixpkgs is refused
    /// with `NotNixpkgs` before anything is written.
    pub fn new(original_path: PathBuf) -> (r: Result<Self, LocalRepositoryError>)
        ensures
            r matches Err(err) ==> err is MissingClone || err is NotNixpkgs || err
                is NoCacheDirectory,
    {
        let names = tracker_names();
        let original_nixpkgs = match local_outcome(
            LocalStage::Clone,
            described(open_repository(&original_path)),
        ) {
            Ok(repository) => repository,
            Err(err) => {
                return Err(err);
            },
        };

        let origin = remote_url(&original_nixpkgs, names.first_remote.as_str());
        let upstream = remote_url(&original_nixpkgs, names.second_remote.as_str());
        match nixpkgs_clone_or_refusal(&origin, &upstream) {
            Ok(()) => {},
            Err(err) => {
                return Err(err);
            },
        }

        let worktree_path = match cache_directory() {
            Some(directory) => join_path(&directory, names.worktree.as_str()),
            None => {
                return Err(LocalRepositoryError::NoCacheDirectory);
            },
        };

        let worktree = match local_outcome(
            LocalStage::Clone,
            described(add_worktree(&original_nixpkgs, names.worktree.as_str(), &worktree_path)),
        ) {
            Ok(worktree) => worktree,
            Err(err) => {
                return Err(err);
            },
        };

        let repository = match local_outcome(
            LocalStage::Clone,
            described(open_from_worktree(&worktree)),
        ) {
            Ok(repository) => repository,
            Err(err) => {
                return Err(err);
            },
        };
        match local_outcome(
            LocalStage::Clone,
            described(
                fetch(&repository, names.fetch_remote.as_str(), names.fetch_branch.as_str()),
            ),
        ) {
            Ok(()) => {},
            Err(err) => {
                return Err(err);
            },
        }
        match local_outcome(LocalStage::Clone, described(checkout_head(&repository))) {
            Ok(()) => {},
            Err(err) => {
                return Err(err);
            },
        }

        Ok(Self { repository, source: original_nixpkgs })
    }

    /// Looks the commit with the hash `sha` up in the clone.
    ///
    /// A commit that is found is the one that `sha` names: its identity is
    /// the object id that `sha` denotes, written in full. Whether the clone
    /// holds that commit is for the clone to say; a `sha` that denotes no
    /// object id names no commit, and fails without the clone being asked.
    pub fn commit_by_sha(&self, sha: &str) -> (r: Result<CommitId, LocalRepositoryError>)
        ensures
            oid_text(sha@) is None ==> r is Err,
            r matches Ok(commit) ==> oid_text(sha@) == Some(commit@),
            r matches Err(err) ==> err is UnresolvedCommit,
    {
        let wanted = match local_outcome(LocalStage::Commit, described(parse_oid(sha))) {
            Ok(hex) => hex,
            Err(err) => {
                return Err(err);
            },
        };
        let found = match local_outcome(
            LocalStage::Commit,
            described(lookup_commit(&self.repository, wanted.as_str())),
        ) {
            Ok(hex) => hex,
            Err(err) => {
                return Err(err);
            },
        };
        commit_as_asked(wanted, found)
    }

    /// Looks up the commit at the tip of the remote-tracking branch `branch_name`.
    pub fn branch_tip(&self, branch_name: &str) -> (r: Result<CommitId, LocalRepositoryError>)
        ensures
            r matches Err(err) ==> err is UnresolvedBranch,
    {
        match local_outcome(
            LocalStage::Branch,
            described(remote_branch_tip(&self.repository, branch_name)),
        ) {
            Ok(hex) => Ok(CommitId { hex }),
            Err(err) => Err(err),
        }
    }

    /// Whether a reference whose tip is `tip` contains `commit`.
    ///
    /// A reference contains its own tip, and for that the history is not
    /// looked at: two identities that are written alike, or that denote the
    /// same object id, are the same commit. For any other commit the history
    /// is walked from the tip: the answer is whether the tip descends from
    /// the commit, and a walk that fails is reported as `Graph`. So is an
    /// identity that denotes no object id, for there is nothing to walk from
    /// or to.
    pub fn ref_contains_commit(&self, tip: &CommitId, commit: &CommitId) -> (r: Result<
        bool,
        LocalRepositoryError,
    >)
        ensures
            same_commit(tip@, commit@) ==> r == Ok::<bool, LocalRepositoryError>(true),
            !same_commit(tip@, commit@) && (oid_text(tip@) is None || oid_text(commit@) is None)
                ==> r is Err,
            r matches Err(err) ==> err is Graph,
    {
        // The tip itself: a walk would say that it is no descendant of itself.
        if tip.hex == commit.hex {
            return Ok(true);
        }
        let tip_oid = match local_outcome(LocalStage::Graph, described(parse_oid(tip.hex.as_str()))) {
            Ok(hex) => hex,
            Err(err) => {
                return Err(err);
            },
        };
        let commit_oid = match local_outcome(
            LocalStage::Graph,
            described(parse_oid(commit.hex.as_str())),
        ) {
            Ok(hex) => hex,
            Err(err) => {
                return Err(err);
            },
        };
        if tip_oid == commit_oid {
            return Ok(true);
        }
        // Any other commit: is the tip a descendant of it?
        let walk = described(descends_from(&self.repository, tip_oid.as_str(), commit_oid.as_str()));
        conclude_containment(tip, commit, walk)
    }

    /// Whether the remote-tracking branch `branch_name` contains the commit
    /// with the hash `commit_sha`. The commit is looked up first, then the
    /// branch, then the history between them, so a hash that denotes no
    /// object id fails as an unresolved commit whatever the branch is.
    pub fn branch_contains_sha(&self, branch_name: &str, commit_sha: &str) -> (r: Result<
        bool,
        LocalRepositoryError,
    >)
        ensures
            oid_text(commit_sha@) is None ==> (r matches Err(err) && err is UnresolvedCommit),
            r matches Err(err) ==> err is UnresolvedCommit || err is UnresolvedBranch || err
                is Graph,
    {
        let commit = match self.commit_by_sha(commit_sha) {
            Ok(commit) => commit,
            Err(err) => {
                return Err(err);
            },
        };
        let tip = match self.branch_tip(branch_name) {
            Ok(tip) => tip,
            Err(err) => {
                return Err(err);
            },
        };
        self.ref_contains_commit(&tip, &commit)
    }

    /// Asks for the tracker's working tree to be pruned, its directory
    /// included: the working tree is looked up in the clone, validated, and
    /// handed to git for pruning. Git of itself prunes only a working tree
    /// that is no longer valid; every refusal is reported as `Worktree`.
    pub fn finish(&self) -> (r: Result<(), LocalRepositoryError>)
        ensures
            r matches Err(err) ==> err is Worktree,
    {
        let worktree = match local_outcome(
            LocalStage::Worktree,
            described(find_worktree(&self.source, tracker_names().worktree.as_str())),
        ) {
            Ok(worktree) => worktree,
            Err(err) => {
                return Err(err);
            },
        };
        match local_outcome(LocalStage::Worktree, described(validate_worktree(&worktree))) {
            Ok(()) => {},
            Err(err) => {
                return Err(err);
            },
        }
        local_outcome(LocalStage::Worktree, described(prune_worktree(&worktree, true)))
    }
}

/// The lower-case form of a hexadecimal digit, or `None` for any other character.
pub open spec fn hex_digit(c: char) -> Option<char> {
    if c == '0' || c == '1' || c == '2' || c == '3' || c == '4' || c == '5' || c == '6' || c == '7'
        || c == '8' || c == '9' || c == 'a' || c == 'b' || c == 'c' || c == 'd' || c == 'e' || c
        == 'f' {
        Some(c)
    } else if c == 'A' {
        Some('a')
    } else if c == 'B' {
        Some('b')
    } else if c == 'C' {
        Some('c')
    } else if c == 'D' {
        Some('d')
    } else if c == 'E' {
        Some('e')
    } else if c == 'F' {
        Some('f')
    } else {
        None
    }
}

/// The object id that `hash` denotes, written in full: one to forty
/// hexadecimal digits denote the id that starts with them and goes on with
/// zeros, and it is written as forty digits in lower case. Anything else
/// denotes no object id.
pub open spec fn oid_text(hash: Seq<char>) -> Option<Seq<char>> {
    if 1 <= hash.len() <= 40 && (forall|i: int|
        0 <= i < hash.len() ==> (#[trigger] hex_digit(hash[i])) is Some) {
        Some(
            Seq::new(
                40,
                |i: int|
                    if i < hash.len() {
                        hex_digit(hash[i])->0
                    } else {
                        '0'
                    },
            ),
        )
    } else {
        None
    }
}

/// Two identities name the same commit: they are written alike, or they
/// denote the same object id.
pub open spec fn same_commit(first: Seq<char>, second: Seq<char>) -> bool {
    first == second || (oid_text(first) is Some && oid_text(first) == oid_text(second))
}

/// What a step of the tracker's work is about, which decides how its failure
/// is reported.
#[derive(Clone, Copy, Debug, PartialEq, Eq, Structural)]
pub enum LocalStage {
    /// Opening the clone and preparing the working tree.
    Clone,
    /// Looking a commit up.
    Commit,
    /// Looking a branch up.
    Branch,
    /// Walking the history.
    Graph,
    /// Removing the working tree.
    Worktree,
}

/// The error that reports a failure at `stage` with the given cause.
pub open spec fn local_failure(stage: LocalStage, cause: String) -> LocalRepositoryError {
    match stage {
        LocalStage::Clone => LocalRepositoryError::MissingClone(cause),
        LocalStage::Commit => LocalRepositoryError::UnresolvedCommit(cause),
        LocalStage::Branch => LocalRepositoryError::UnresolvedBranch(cause),
        LocalStage::Graph => LocalRepositoryError::Graph(cause),
        LocalStage::Worktree => LocalRepositoryError::Worktree(cause),
    }
}

/// Turns what a step at `stage` gave into the tracker's terms: what it gave
/// if it went well, and the error of that stage with its cause if it failed.
pub fn local_outcome<T>(stage: LocalStage, outcome: Result<T, String>) -> (r: Result<
    T,
    LocalRepositoryError,
>)
    ensures
        r == match outcome {
            Ok(value) => Ok::<T, LocalRepositoryError>(value),
            Err(cause) => Err(local_failure(stage, cause)),
        },
{
    match outcome {
        Ok(value) => Ok(value),
        Err(cause) => Err(
            match stage {
                LocalStage::Clone => LocalRepositoryError::MissingClone(cause),
                LocalStage::Commit => LocalRepositoryError::UnresolvedCommit(cause),
                LocalStage::Branch => LocalRepositoryError::UnresolvedBranch(cause),
                LocalStage::Graph => LocalRepositoryError::Graph(cause),
                LocalStage::Worktree => LocalRepositoryError::Worktree(cause),
            },
        ),
    }
}

/// The commit that the clone gave for the object id `wanted`: the commit with
/// that identity. A commit with any other identity is not the one asked for.
pub fn commit_as_asked(wanted: String, found: String) -> (r: Result<CommitId, LocalRepositoryError>)
    ensures
        match r {
            Ok(commit) => found@ == wanted@ && commit@ == wanted@,
            Err(err) => found@ != wanted@ && err is UnresolvedCommit,
        },
{
    if found == wanted {
        Ok(CommitId { hex: found })
    } else {
        let mut cause = String::from_str("the clone holds another commit under ");
        cause.append(wanted.as_str());
        Err(LocalRepositoryError::UnresolvedCommit(cause))
    }
}

impl CommitId {
    /// The identity that `hash` denotes: an object id written in full, or
    /// `None` where `hash` denotes no object id. Whether a clone holds a
    /// commit of that identity is another matter.
    pub fn parse(hash: &str) -> (r: Option<CommitId>)
        ensures
            match r {
                Some(commit) => oid_text(hash@) == Some(commit@),
                None => oid_text(hash@) is None,
            },
    {
        match parse_oid(hash) {
            Ok(hex) => Some(CommitId { hex }),
            Err(_) => None,
        }
    }
}

/// What a call into git2 gave, with the error in words.
fn described<T>(outcome: Result<T, git2::Error>) -> (r: Result<T, String>)
    ensures
        match outcome {
            Ok(value) => r == Ok::<T, String>(value),
            Err(_) => r is Err,
        },
{
    match outcome {
        Ok(value) => Ok(value),
        Err(err) => Err(error_message(&err)),
    }
}

/// Calls git2: `Oid::from_str`, and `Display` on the object id that it
/// gave. git2 documents that `from_str` takes up to forty hexadecimal digits
/// and fails on an empty string, on a longer one and on any other character;
/// libgit2 starts from an id of zeros and fills in the digits given, and
/// writes an id as forty digits in lower case.
#[verifier::external_body]
fn parse_oid(hash: &str) -> (r: Result<String, git2::Error>)
    ensures
        match r {
            Ok(hex) => oid_text(hash@) == Some(hex@),
            Err(_) => oid_text(hash@) is None,
        },
{
    Oid::from_str(hash).map(|oid| oid.to_string())
}

/// Calls git2: `Error::message`, the text of an error.
#[verifier::external_body]
fn error_message(err: &git2::Error) -> String {
    err.message().to_owned()
}

/// Calls git2: `Repository::open`, which opens the repository at a path and
/// fails where there is none. Nothing is claimed of the outcome.
#[verifier::external_body]
fn open_repository(path: &PathBuf) -> Result<Repository, git2::Error> {
    Repository::open(path)
}

/// Calls git2: `Repository::find_remote`, then `Remote::url` on the remote
/// that was found. `None` where the repository has no remote of this name or
/// its address is no valid text. Nothing is claimed of the address.
#[verifier::external_body]
fn remote_url(repository: &Repository, name: &str) -> Option<String> {
    repository.find_remote(name).ok().and_then(|remote| remote.url().ok().map(|url| url.to_owned()))
}

/// Calls etcetera: `choose_base_strategy`, then `BaseStrategy::cache_dir` on
/// what it chose: the user's cache directory, or `None` where the user has no
/// home directory. Nothing is claimed of the path.
#[verifier::external_body]
fn cache_directory() -> Option<PathBuf> {
    etcetera::choose_base_strategy().ok().map(|strategy| etcetera::BaseStrategy::cache_dir(&strategy))
}

/// Calls std: `Path::join`, the path of `name` inside `base`. Nothing is
/// claimed of the path.
#[verifier::external_body]
fn join_path(base: &PathBuf, name: &str) -> PathBuf {
    base.join(name)
}

/// Calls git2: `Repository::worktree`, which adds a working tree of the
/// given name at the given path, with the default options. Nothing is claimed
/// of the outcome.
#[verifier::external_body]
fn add_worktree(repository: &Repository, name: &str, path: &PathBuf) -> Result<
    Worktree,
    git2::Error,
> {
    repository.worktree(name, path, None)
}

/// Calls git2: `Repository::open_from_worktree`. Nothing is claimed of the outcome.
#[verifier::external_body]
fn open_from_worktree(worktree: &Worktree) -> Result<Repository, git2::Error> {
    Repository::open_from_worktree(worktree)
}

/// Calls git2: `Repository::find_remote`, then `Remote::fetch` of one branch
/// with the default options and no message for the reflog. Nothing is claimed
/// of the outcome.
#[verifier::external_body]
fn fetch(repository: &Repository, remote: &str, branch: &str) -> Result<(), git2::Error> {
    repository.find_remote(remote)?.fetch(&[branch], None, None)
}

/// Calls git2: `Repository::checkout_head` with the default options. Nothing
/// is claimed of the outcome.
#[verifier::external_body]
fn checkout_head(repository: &Repository) -> Result<(), git2::Error> {
    repository.checkout_head(None)
}

/// Calls git2: `Oid::from_str` on the hash, `Repository::find_commit` with
/// the object id it gave, and `Commit::id` on the commit that was found,
/// written in hexadecimal. Nothing is claimed of the outcome.
#[verifier::external_body]
fn lookup_commit(repository: &Repository, sha: &str) -> Result<String, git2::Error> {
    let oid = Oid::from_str(sha)?;
    let commit = repository.find_commit(oid)?;
    Ok(commit.id().to_string())
}

/// Calls git2: `Repository::find_branch` among the remote-tracking branches,
/// `Branch::into_reference`, `Reference::peel_to_commit` and `Commit::id`,
/// written in hexadecimal. Nothing is claimed of the outcome.
#[verifier::external_body]
fn remote_branch_tip(repository: &Repository, branch_name: &str) -> Result<String, git2::Error> {
    let branch = repository.find_branch(branch_name, BranchType::Remote)?;
    let head = branch.into_reference().peel_to_commit()?;
    Ok(head.id().to_string())
}

/// Calls git2: `Oid::from_str` on both hashes and
/// `Repository::graph_descendant_of`, which says whether the first commit is a
/// descendant of the second; git2 documents that a commit is not a descendant
/// of itself. The answer depends on the clone, so nothing is claimed of it.
#[verifier::external_body]
fn descends_from(repository: &Repository, commit: &str, ancestor: &str) -> Result<
    bool,
    git2::Error,
> {
    repository.graph_descendant_of(Oid::from_str(commit)?, Oid::from_str(ancestor)?)
}

/// Calls git2: `Repository::find_worktree`. Nothing is claimed of the outcome.
#[verifier::external_body]
fn find_worktree(repository: &Repository, name: &str) -> Result<Worktree, git2::Error> {
    repository.find_worktree(name)
}

/// Calls git2: `Worktree::validate`. Nothing is claimed of the outcome.
#[verifier::external_body]
fn validate_worktree(worktree: &Worktree) -> Result<(), git2::Error> {
    worktree.validate()
}

/// Calls git2: `WorktreePruneOptions::new`, `WorktreePruneOptions::working_tree`
/// with the flag, and `Worktree::prune` with these options. Nothing is
/// claimed of the outcome.
#[verifier::external_body]
fn prune_worktree(worktree: &Worktree, working_tree: bool) -> Result<(), git2::Error> {
    let mut opts = WorktreePruneOptions::new();
    opts.working_tree(working_tree);
    worktree.prune(Some(&mut opts))
}

} // verus!
