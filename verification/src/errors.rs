//! The error of view construction. A failure here is fatal for the one
//! repository it concerns and never aborts the scan of the others.

use vstd::prelude::*;

verus! {

/// Why a view could not be built for one repository.
#[derive(Clone, Debug, PartialEq, Eq)]
pub enum ViewError {
    /// The path has no final segment to name the repository after.
    MissingName,
    /// The final path segment is not valid text.
    NonTextName,
    /// A parent path segment is not valid text.
    NonTextParent,
    /// The current branch's shorthand ref name is not valid text.
    NonTextBranch,
    /// The backend reported an unreadable repository state, other than the
    /// known compatibility case that degrades the view instead.
    Git(String),
}

impl ViewError {
    /// A plain-text account of the error.
    pub fn describe(&self) -> (r: String)
        ensures
            self is MissingName ==> r@ == "no final path segment to name the repository"@,
            self is NonTextName ==> r@ == "the repository's directory name is not valid text"@,
            self is NonTextParent ==> r@ == "the parent directory path is not valid text"@,
            self is NonTextBranch ==> r@ == "the branch's shorthand ref name is not valid text"@,
            self matches ViewError::Git(m) ==> r@ == m@,
    {
        match self {
            ViewError::MissingName => String::from_str("no final path segment to name the repository"),
            ViewError::NonTextName => String::from_str("the repository's directory name is not valid text"),
            ViewError::NonTextParent => String::from_str("the parent directory path is not valid text"),
            ViewError::NonTextBranch => String::from_str("the branch's shorthand ref name is not valid text"),
            ViewError::Git(m) => m.clone(),
        }
    }
}

} // verus!
