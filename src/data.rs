//! The per-package and per-target inputs of the fetchers.
use vstd::prelude::*;
use crate::repo_url::opt_view;
use crate::resolve::{started, Resolver};

verus! {

/// Data required to fetch a package: its name, version and, when the package
/// names one, its source repository URL.
#[derive(Clone, Debug)]
pub struct Data {
    pub name: String,
    pub version: String,
    pub repo: Option<String>,
}

impl Data {
    pub fn new(name: String, version: String, repo: Option<String>) -> (r: Data)
        ensures
            r == (Data { name, version, repo }),
    {
        Data { name, version, repo }
    }

    /// Starts resolving this package's repository metadata.
    pub fn start_repo_info(&self, has_token: bool) -> (r: Resolver)
        ensures
            started(opt_view(self.repo), has_token, r),
    {
        match &self.repo {
            Some(s) => Resolver::start(Some(s.as_str()), has_token),
            None => Resolver::start(None, has_token),
        }
    }
}

/// Target specific data required to fetch a package: the target triple, the
/// finalised package metadata for it, and further values that URL templates
/// may name (such as the target's family, architecture, libc and vendor).
#[derive(Clone, Debug)]
pub struct TargetData<M, T> {
    pub target: String,
    pub meta: M,
    pub target_related_info: T,
}

} // verus!
