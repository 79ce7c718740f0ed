//! Classification of a repository URL by its hosting service.
use vstd::prelude::*;
use crate::repo_url::RepoUrl;
use crate::text::{is_prefix, starts_with};

verus! {

/// The git hosting service that a repository URL points at.
#[derive(Clone, Copy, Debug, PartialEq, Eq, Structural)]
pub enum RepositoryHost {
    GitHub,
    GitLab,
    BitBucket,
    SourceForge,
    Codeberg,
    Unknown,
}

/// The hosting service of a URL whose host is `domain`: GitHub and GitLab are
/// recognised by the start of the domain (self-hosted instances included), the
/// others by their exact domain.
pub open spec fn host_of_domain(domain: Option<Seq<char>>) -> RepositoryHost {
    match domain {
        Some(d) => if is_prefix("github"@, d) {
            RepositoryHost::GitHub
        } else if is_prefix("gitlab"@, d) {
            RepositoryHost::GitLab
        } else if d == "bitbucket.org"@ {
            RepositoryHost::BitBucket
        } else if d == "sourceforge.net"@ {
            RepositoryHost::SourceForge
        } else if d == "codeberg.org"@ {
            RepositoryHost::Codeberg
        } else {
            RepositoryHost::Unknown
        },
        None => RepositoryHost::Unknown,
    }
}

impl RepositoryHost {
    /// Guesses the hosting service from the URL's domain.
    pub fn guess_git_hosting_services(repo: &RepoUrl) -> (r: RepositoryHost)
        ensures
            r == host_of_domain(repo@.domain),
    {
        match repo.domain() {
            Some(d) => {
                let owned = d.to_owned();
                if starts_with(d, "github") {
                    RepositoryHost::GitHub
                } else if starts_with(d, "gitlab") {
                    RepositoryHost::GitLab
                } else if owned == "bitbucket.org".to_owned() {
                    RepositoryHost::BitBucket
                } else if owned == "sourceforge.net".to_owned() {
                    RepositoryHost::SourceForge
                } else if owned == "codeberg.org".to_owned() {
                    RepositoryHost::Codeberg
                } else {
                    RepositoryHost::Unknown
                }
            },
            None => RepositoryHost::Unknown,
        }
    }
}

} // verus!
