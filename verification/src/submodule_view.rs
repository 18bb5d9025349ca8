//! Submodule traversal: one view per submodule registered in a non-bare
//! parent repository, in the backend's enumeration order, each built by a
//! reduced classifier pass (no further fetch). A failure inside one
//! submodule is absorbed into that submodule's view rather than raised, so
//! the traversal always yields exactly one view per registered submodule.

use vstd::prelude::*;

use crate::git_backend::{remote_url_by_name, repo_submodules, submodule_name, submodule_open};
use crate::status::Status;

verus! {

/// The view of one registered submodule: the informational shape of a
/// repository view restricted to name, branch, status and URL. Owned by
/// its parent view; it does not recurse into further submodule fetches.
#[derive(Clone, Debug, PartialEq, Eq)]
pub struct SubmoduleView {
    /// The submodule's registered name, or the `unknown` sentinel when the
    /// backend reports none that is valid text.
    pub name: String,
    /// The shorthand name of the submodule's checked-out branch, the
    /// `HEAD` sentinel when its HEAD is unborn, or the `unknown` sentinel
    /// when the submodule could not be read.
    pub branch: String,
    /// The submodule's synchronization state; `Unknown` when it could not
    /// be read.
    pub status: Status,
    /// The URL of the submodule's selected remote, or absent.
    pub url: Option<String>,
}

/// Build the view of one submodule: open it and apply the reduced
/// classifier pass; absorb any failure into an `Unknown` view.
fn view_of_submodule<'a>(sub: &git2::Submodule<'a>) -> SubmoduleView {
    let name = match submodule_name(sub) {
        Some(n) => n,
        None => String::from_str("unknown"),
    };
    let repo = match submodule_open(sub) {
        Some(r) => r,
        None => {
            return SubmoduleView {
                name,
                branch: String::from_str("unknown"),
                status: Status::Unknown,
                url: None,
            };
        },
    };
    match Status::find(&repo) {
        Ok((status, snapshot, remote_name)) => {
            let branch = match snapshot.head.branch_label() {
                Ok(b) => b,
                Err(_) => String::from_str("unknown"),
            };
            let url = match &remote_name {
                Some(n) => remote_url_by_name(&repo, n),
                None => None,
            };
            SubmoduleView { name, branch, status, url }
        },
        Err(_) => SubmoduleView {
            name,
            branch: String::from_str("unknown"),
            status: Status::Unknown,
            url: None,
        },
    }
}

/// One view per handed submodule, in order: the traversal over a list of
/// `k` registered submodules yields exactly `k` views.
pub fn views_of_submodules<'a>(subs: &Vec<git2::Submodule<'a>>) -> (r: Vec<SubmoduleView>)
    ensures
        r@.len() == subs@.len(),
{
    let mut views: Vec<SubmoduleView> = Vec::new();
    let n = subs.len();
    let mut i: usize = 0;
    while i < n
        invariant
            i <= n == subs@.len(),
            views@.len() == i,
        decreases n - i,
    {
        let v = view_of_submodule(&subs[i]);
        views.push(v);
        i = i + 1;
    }
    views
}

/// Traverse the submodules registered in the repository, unless traversal
/// is disabled or the repository is bare, which both yield zero views.
pub fn submodule_views(repo: &git2::Repository, traverse: bool, bare: bool) -> (r: Result<
    Vec<SubmoduleView>,
    String,
>)
    ensures
        (!traverse || bare) ==> (r matches Ok(v) && v@.len() == 0),
{
    if traverse && !bare {
        match repo_submodules(repo) {
            Ok(subs) => Ok(views_of_submodules(&subs)),
            Err(msg) => Err(msg),
        }
    } else {
        Ok(Vec::new())
    }
}

} // verus!
