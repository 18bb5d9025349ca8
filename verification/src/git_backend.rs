//! The version-control backend adapter: every call into git2 the library
//! makes goes through one of the trusted items here. Each wrapper converts
//! what the backend hands back into plain values; what those values are for
//! a given repository depends on the state on disk, so nothing is promised
//! of them, and every caller is verified for every outcome.

use vstd::prelude::*;

use crate::email::ConfigEntryRecord;

verus! {

#[verifier::external_type_specification]
#[verifier::external_body]
pub struct ExRepository(git2::Repository);

#[verifier::external_type_specification]
#[verifier::external_body]
pub struct ExSubmodule<'a>(git2::Submodule<'a>);

/// What opening a repository produced. The known unsupported-metadata
/// condition is told apart so that the caller can degrade the view to
/// `Unknown` instead of failing.
pub enum OpenOutcome {
    Opened(git2::Repository),
    UnsupportedExtension,
    Failed(String),
}

/// What querying HEAD produced. A shorthand of `None` means the ref name
/// is not valid text.
pub enum HeadQuery {
    Unborn,
    Resolved { detached: bool, shorthand: Option<String> },
    Failed(String),
}

/// What querying the upstream-tracking branch produced.
pub enum UpstreamQuery {
    Missing,
    Counts { ahead: usize, behind: usize },
    Failed(String),
}

/// Relies on git2::Repository::open, and on git2::Error::message to tell
/// apart the known unsupported-extension condition that one backend
/// version raises for `extensions.worktreeconfig`.
#[verifier::external_body]
pub(crate) fn open_repository(path: &String) -> OpenOutcome {
    match git2::Repository::open(path.as_str()) {
        Ok(repo) => OpenOutcome::Opened(repo),
        Err(e) if e.message() == "unsupported extension name extensions.worktreeconfig" => {
            OpenOutcome::UnsupportedExtension
        },
        Err(e) => OpenOutcome::Failed(e.message().to_string()),
    }
}

/// Relies on git2::Repository::is_bare.
#[verifier::external_body]
pub(crate) fn repo_is_bare(repo: &git2::Repository) -> bool {
    repo.is_bare()
}

/// Relies on git2::Repository::head, git2::Repository::head_detached,
/// git2::Reference::shorthand and git2::Error::code: an unborn-branch or
/// not-found condition means the repository is unborn/empty.
#[verifier::external_body]
pub(crate) fn head_query(repo: &git2::Repository) -> HeadQuery {
    match repo.head() {
        Ok(head) => HeadQuery::Resolved {
            detached: repo.head_detached().unwrap_or(false),
            shorthand: head.shorthand().ok().map(|s| s.to_string()),
        },
        Err(e)
            if e.code() == git2::ErrorCode::UnbornBranch
                || e.code() == git2::ErrorCode::NotFound
            => HeadQuery::Unborn,
        Err(e) => HeadQuery::Failed(e.message().to_string()),
    }
}

/// Relies on git2::Repository::find_branch, git2::Branch::upstream,
/// git2::Reference::target and git2::Repository::graph_ahead_behind: the
/// counts are (ahead, behind) between the local branch and its upstream;
/// a not-found condition anywhere means no upstream is configured.
#[verifier::external_body]
pub(crate) fn upstream_counts(repo: &git2::Repository, branch: &String) -> UpstreamQuery {
    let targets = repo
        .find_branch(branch.as_str(), git2::BranchType::Local)
        .and_then(|local| Ok((local.get().target(), local.upstream()?.get().target())));
    match targets {
        Ok((Some(local), Some(upstream))) => match repo.graph_ahead_behind(local, upstream) {
            Ok((ahead, behind)) => UpstreamQuery::Counts { ahead, behind },
            Err(e) => UpstreamQuery::Failed(e.message().to_string()),
        },
        Ok(_) => UpstreamQuery::Missing,
        Err(e) if e.code() == git2::ErrorCode::NotFound => UpstreamQuery::Missing,
        Err(e) => UpstreamQuery::Failed(e.message().to_string()),
    }
}

/// Relies on git2::Repository::head, git2::Reference::peel_to_tree,
/// git2::Repository::diff_tree_to_index and git2::Diff::deltas: the number
/// of changes between HEAD's tree (empty for an unborn HEAD) and the index.
#[verifier::external_body]
pub(crate) fn staged_change_count(repo: &git2::Repository) -> Result<usize, String> {
    let tree = repo.head().ok().and_then(|h| h.peel_to_tree().ok());
    match repo.diff_tree_to_index(tree.as_ref(), None, None) {
        Ok(diff) => Ok(diff.deltas().len()),
        Err(e) => Err(e.message().to_string()),
    }
}

/// Relies on git2::Repository::diff_index_to_workdir and
/// git2::Diff::deltas: the number of changes between the index and the
/// working tree.
#[verifier::external_body]
pub(crate) fn worktree_change_count(repo: &git2::Repository) -> Result<usize, String> {
    match repo.diff_index_to_workdir(None, None) {
        Ok(diff) => Ok(diff.deltas().len()),
        Err(e) => Err(e.message().to_string()),
    }
}

/// Relies on git2::Repository::remotes: the configured remote names in the
/// backend's enumeration order, a name carried as `None` when it is not
/// valid text.
#[verifier::external_body]
pub(crate) fn remote_names(repo: &git2::Repository) -> Result<Vec<Option<String>>, String> {
    match repo.remotes() {
        Ok(names) => Ok(names.iter().map(|n| n.ok().flatten().map(|s| s.to_string())).collect()),
        Err(e) => Err(e.message().to_string()),
    }
}

/// Relies on git2::Repository::find_remote and git2::Remote::url: the URL
/// of the named remote, absent when the remote cannot be found or its URL
/// is unset or not valid text.
#[verifier::external_body]
pub(crate) fn remote_url_by_name(repo: &git2::Repository, name: &String) -> Option<String> {
    match repo.find_remote(name.as_str()) {
        Ok(remote) => remote.url().ok().map(|s| s.to_string()),
        Err(_) => None,
    }
}

/// Relies on git2::Repository::find_remote, git2::Remote::fetch,
/// git2::RemoteCallbacks::credentials and git2::Cred::ssh_key: fetches the
/// single given branch ref, offering the resolved SSH key (captured by
/// value, so repeated authentication callbacks stay deterministic) only
/// when asked to. Returns whether the fetch succeeded; a failure is
/// reported, never raised.
#[verifier::external_body]
pub(crate) fn fetch_branch(
    repo: &git2::Repository,
    remote_name: &String,
    refspec: &String,
    with_ssh_key: bool,
    key_path: &String,
    passphrase: &Option<String>,
) -> bool {
    let Ok(mut remote) = repo.find_remote(remote_name.as_str()) else { return false };
    let mut callbacks = git2::RemoteCallbacks::new();
    if with_ssh_key {
        callbacks.credentials(move |_url, user, _allowed| {
            let key = std::path::Path::new(key_path.as_str());
            git2::Cred::ssh_key(user.unwrap_or(""), None, key, passphrase.as_deref())
        });
    }
    let mut options = git2::FetchOptions::new();
    options.remote_callbacks(callbacks);
    remote.fetch(&[refspec.as_str()], Some(&mut options), None).is_ok()
}

/// Relies on git2::Repository::submodules: the submodules registered in
/// the repository, in the backend's enumeration order.
#[verifier::external_body]
pub(crate) fn repo_submodules<'a>(repo: &'a git2::Repository) -> Result<
    Vec<git2::Submodule<'a>>,
    String,
> {
    match repo.submodules() {
        Ok(subs) => Ok(subs),
        Err(e) => Err(e.message().to_string()),
    }
}

/// Relies on git2::Submodule::name: absent when the name is not valid text.
#[verifier::external_body]
pub(crate) fn submodule_name<'a>(sub: &git2::Submodule<'a>) -> Option<String> {
    sub.name().ok().map(|s| s.to_string())
}

/// Relies on git2::Submodule::open: absent when the submodule's repository
/// cannot be opened.
#[verifier::external_body]
pub(crate) fn submodule_open<'a>(sub: &git2::Submodule<'a>) -> Option<git2::Repository> {
    sub.open().ok()
}

/// Relies on git2::Repository::config and git2::Config::entries: the
/// configuration entries in backend order (local first, then global), an
/// unreadable entry carried as `Bad`; absent when the configuration itself
/// cannot be read.
#[verifier::external_body]
pub(crate) fn config_entry_records(repo: &git2::Repository) -> Option<Vec<ConfigEntryRecord>> {
    let config = repo.config().ok()?;
    let mut entries = config.entries(None).ok()?;
    let mut records = Vec::new();
    while let Some(entry) = entries.next() {
        records.push(match entry {
            Ok(e) => ConfigEntryRecord::Pair {
                name: e.name().ok().map(|s| s.to_string()),
                value: e.value().ok().map(|s| s.to_string()),
            },
            Err(_) => ConfigEntryRecord::Bad,
        });
    }
    Some(records)
}

} // verus!
