//! Repository status aggregation: classifies the synchronization state of a
//! local version-control repository relative to its remotes, selects a remote
//! to operate against, resolves the SSH identity used to authenticate fetches,
//! and builds one immutable view per repository, submodules included.

pub mod email;
pub mod errors;
pub mod git_backend;
pub mod path_model;
pub mod remotes;
pub mod repository_view;
pub mod ssh_identity;
pub mod status;
pub mod submodule_view;
pub mod urls;
