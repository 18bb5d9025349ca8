//! The repository view builder: one immutable result record per
//! repository, orchestrated as open, classify, traverse submodules,
//! resolve the email identity, fetch the selected remote, finalize. A
//! failure is fatal for the one repository only; the known
//! unsupported-metadata condition at open degrades the whole view to
//! `Unknown` instead.

use vstd::prelude::*;

use crate::email::{find_email, spec_find_email};
use crate::errors::ViewError;
use crate::git_backend::{
    config_entry_records,
    fetch_branch,
    open_repository,
    remote_url_by_name,
    repo_is_bare,
    OpenOutcome,
};
use crate::path_model::RepoPath;
use crate::ssh_identity::resolve_ssh_identity;
use crate::status::{HeadObservation, Status};
use crate::submodule_view::{submodule_views, SubmoduleView};
use crate::urls::{host_of_url, is_https_url};

verus! {

/// A collection of results for one repository at a given path. Constructed
/// once per scan pass and never mutated.
#[derive(Clone, Debug, PartialEq, Eq)]
pub struct RepositoryView {
    /// The directory name of the repository: the final path segment.
    pub name: String,
    /// The shorthand name of the current branch, the `HEAD` sentinel when
    /// HEAD is unborn, or the `unknown` sentinel when no branch was read.
    pub branch: String,
    /// The synchronization state of the working tree.
    pub status: Status,
    /// The text of the parent directory, or absent when the path has none.
    pub parent: Option<String>,
    /// The URL of the selected remote, or absent.
    pub url: Option<String>,
    /// The email resolved from the repository's configuration, or absent.
    pub email: Option<String>,
    /// Views of the submodules registered in the repository.
    pub submodules: Vec<SubmoduleView>,
}

impl RepositoryView {
    /// Assemble a view from its parts. The name is the path's final
    /// segment and the parent its remaining text; a non-text component
    /// there is fatal for this one repository, never a panic. An absent
    /// branch falls back to the `unknown` sentinel.
    pub fn finalize(
        path: &RepoPath,
        branch: Option<String>,
        status: Status,
        url: Option<String>,
        email: Option<String>,
        submodules: Vec<SubmoduleView>,
    ) -> (r: Result<RepositoryView, ViewError>)
        ensures
            r is Ok <==> path.has_name() && path.spec_name() is Some && path.parent_is_text(),
            r matches Ok(v) ==> {
                &&& v.name@ == path.spec_name()->0@
                &&& (v.parent matches Some(p) && p@ == path.spec_parent_text())
                &&& v.branch@ == (if branch is Some {
                    branch->0@
                } else {
                    "unknown"@
                })
                &&& v.status == status
                &&& v.url == url
                &&& v.email == email
                &&& v.submodules == submodules
            },
            r matches Err(e) ==> {
                &&& (e is MissingName <==> !path.has_name())
                &&& (e is NonTextName <==> path.has_name() && path.spec_name() is None)
                &&& (e is NonTextParent <==> path.has_name() && path.spec_name() is Some
                    && !path.parent_is_text())
            },
    {
        let n = path.segments.len();
        if n == 0 {
            return Err(ViewError::MissingName);
        }
        let name = match &path.segments[n - 1] {
            Some(s) => s.clone(),
            None => {
                return Err(ViewError::NonTextName);
            },
        };
        let parent = match path.parent_text() {
            Some(p) => p,
            None => {
                return Err(ViewError::NonTextParent);
            },
        };
        let branch_name = match branch {
            Some(b) => b,
            None => String::from_str("unknown"),
        };
        Ok(
            RepositoryView {
                name,
                branch: branch_name,
                status,
                parent: Some(parent),
                url,
                email,
                submodules,
            },
        )
    }

    /// The degraded view for a repository whose metadata the backend
    /// cannot read: status `Unknown`, branch at its sentinel, no URL, no
    /// email, no submodules; only the path is reported.
    pub fn unknown_view(path: &RepoPath) -> (r: Result<RepositoryView, ViewError>)
        ensures
            r is Ok <==> path.has_name() && path.spec_name() is Some && path.parent_is_text(),
            r matches Ok(v) ==> {
                &&& v.name@ == path.spec_name()->0@
                &&& (v.parent matches Some(p) && p@ == path.spec_parent_text())
                &&& v.branch@ == "unknown"@
                &&& v.status == Status::Unknown
                &&& v.url is None
                &&& v.email is None
                &&& v.submodules@.len() == 0
            },
    {
        RepositoryView::finalize(path, None, Status::Unknown, None, None, Vec::new())
    }

    /// Greedily find the `user.email` value in the repository's local or
    /// global configuration, in the order the backend merges them. Every
    /// error here is absorbed as an absent email: the field is
    /// non-critical to the final results.
    pub fn get_email(repo: &git2::Repository) -> (r: Option<String>)
    {
        match config_entry_records(repo) {
            Some(entries) => find_email(&entries),
            None => None,
        }
    }

    /// Generate the view for the repository at the given path: open it,
    /// classify its status, traverse its submodules and resolve its email
    /// identity when asked to, fetch the selected remote's current branch
    /// when asked to (and only when both a URL and a HEAD exist), and
    /// finalize. The home directory, the SSH configuration contents and
    /// the fetch password are injected by the caller, so the library never
    /// reads the environment itself. The known unsupported-metadata
    /// condition at open degrades the whole view to `Unknown`; any other
    /// failure is fatal for this one repository only.
    pub fn new(
        repo_path: &RepoPath,
        include_email: bool,
        include_submodules: bool,
        fetch_remote: bool,
        fetch_password: String,
        home: &String,
        ssh_config: &Option<Vec<u8>>,
    ) -> (r: Result<RepositoryView, ViewError>)
        ensures
            r is Ok ==> repo_path.has_name() && repo_path.spec_name() is Some
                && repo_path.parent_is_text(),
            r matches Ok(v) ==> {
                &&& v.name@ == repo_path.spec_name()->0@
                &&& (v.parent matches Some(p) && p@ == repo_path.spec_parent_text())
                &&& (!include_submodules ==> v.submodules@.len() == 0)
                &&& (!include_email ==> v.email is None)
            },
    {
        let path_text = match repo_path.to_text() {
            Some(t) => t,
            None => {
                // A non-text component can neither be opened nor named:
                // fatal for this one repository only.
                return RepositoryView::finalize(
                    repo_path,
                    None,
                    Status::Unknown,
                    None,
                    None,
                    Vec::new(),
                );
            },
        };
        let repo = match open_repository(&path_text) {
            OpenOutcome::Opened(repo) => repo,
            OpenOutcome::UnsupportedExtension => {
                return RepositoryView::unknown_view(repo_path);
            },
            OpenOutcome::Failed(msg) => {
                return Err(ViewError::Git(msg));
            },
        };
        let (status, snapshot, remote_name) = match Status::find(&repo) {
            Ok(t) => t,
            Err(msg) => {
                return Err(ViewError::Git(msg));
            },
        };
        let bare = repo_is_bare(&repo);
        let submodules = match submodule_views(&repo, include_submodules, bare) {
            Ok(v) => v,
            Err(msg) => {
                return Err(ViewError::Git(msg));
            },
        };
        let head_present = match &snapshot.head {
            HeadObservation::Unborn => false,
            HeadObservation::Detached { .. } => true,
            HeadObservation::Branch { .. } => true,
        };
        let branch: String = match snapshot.head.branch_label() {
            Ok(b) => b,
            Err(e) => {
                return Err(e);
            },
        };
        let email = if include_email {
            RepositoryView::get_email(&repo)
        } else {
            None
        };
        let url = match &remote_name {
            Some(name) => remote_url_by_name(&repo, name),
            None => None,
        };
        if fetch_is_allowed(fetch_remote, &url, head_present) {
            fetch_remote_locally(
                &repo,
                &remote_name,
                &url,
                &Some(branch.clone()),
                &fetch_password,
                home,
                ssh_config,
            );
        }
        RepositoryView::finalize(repo_path, Some(branch), status, url, email, submodules)
    }
}

/// The fetch step's precondition: a fetch is attempted only when it was
/// asked for and both a resolved URL and a current HEAD exist; otherwise
/// the step is skipped silently and the view is still built from local
/// data alone.
pub fn fetch_is_allowed(fetch_remote: bool, url: &Option<String>, head_present: bool) -> (r: bool)
    ensures
        r <==> (fetch_remote && url is Some && head_present),
{
    fetch_remote && url.is_some() && head_present
}

/// Fetch the current branch from the selected remote. Both a resolved URL
/// and a current HEAD must exist — the caller skips the step silently
/// otherwise — and the SSH-key credential is resolved and offered only
/// when the URL scheme is not HTTPS. A fetch failure is non-fatal: the
/// repository is then simply treated as possibly stale.
pub fn fetch_remote_locally(
    repo: &git2::Repository,
    remote_name: &Option<String>,
    url: &Option<String>,
    branch: &Option<String>,
    fetch_password: &String,
    home: &String,
    ssh_config: &Option<Vec<u8>>,
) -> (fetched: bool)
    requires
        url is Some,
        branch is Some,
    ensures
        remote_name is None ==> !fetched,
{
    let remote = match remote_name {
        Some(n) => n.clone(),
        None => {
            return false;
        },
    };
    let url_text = match url {
        Some(u) => u.clone(),
        None => {
            return false;
        },
    };
    let branch_text = match branch {
        Some(b) => b.clone(),
        None => {
            return false;
        },
    };
    if is_https_url(&url_text) {
        let no_key = String::new();
        let no_pass: Option<String> = None;
        fetch_branch(repo, &remote, &branch_text, false, &no_key, &no_pass)
    } else {
        let host = host_of_url(&url_text);
        let identity = resolve_ssh_identity(ssh_config, &host, home, fetch_password);
        fetch_branch(repo, &remote, &branch_text, true, &identity.key_path, &identity.passphrase)
    }
}

} // verus!
