//! Repository metadata and the detection of a sub-package path in a
//! provider's browse URL.
use vstd::prelude::*;
use crate::hosting::RepositoryHost;
use crate::repo_url::{joined_path, opt_view, RepoUrl, UrlView};

verus! {

/// Normalised, visibility-annotated description of a package's repository.
#[derive(Debug)]
pub struct RepoInfo {
    pub repo: RepoUrl,
    pub repository_host: RepositoryHost,
    pub subcrate: Option<String>,
    pub is_private: bool,
}

/// The mathematical value of a [`RepoInfo`].
pub struct RepoInfoView {
    pub repo: UrlView,
    pub repository_host: RepositoryHost,
    pub subcrate: Option<Seq<char>>,
    pub is_private: bool,
}

impl View for RepoInfo {
    type V = RepoInfoView;

    open spec fn view(&self) -> RepoInfoView {
        RepoInfoView {
            repo: self.repo@,
            repository_host: self.repository_host,
            subcrate: opt_view(self.subcrate),
            is_private: self.is_private,
        }
    }
}

/// The path tokens that a provider puts between `owner/repo` and the branch
/// of a browse URL; `None` where no detection is done.
pub open spec fn host_separators(host: RepositoryHost) -> Option<Seq<Seq<char>>> {
    match host {
        RepositoryHost::GitHub => Some(seq!["tree"@]),
        RepositoryHost::GitLab => Some(seq!["-"@, "blob"@]),
        RepositoryHost::Codeberg => Some(seq!["src"@, "branch"@]),
        _ => None,
    }
}

/// The sub-package named by the segments
/// `owner/repo/<seps>/branch/name` or `owner/repo/<seps>/branch/crates/name`,
/// or `None` when the segments have neither shape.
pub open spec fn subcrate_in(segs: Seq<Seq<char>>, seps: Seq<Seq<char>>) -> Option<Seq<char>> {
    let k = seps.len() as int;
    if segs.len() < k + 4 || segs.subrange(2, 2 + k) != seps {
        None
    } else {
        let rest = segs.subrange(k + 3, segs.len() as int);
        if rest.len() == 1 && rest[0] != "crates"@ {
            Some(rest[0])
        } else if rest.len() == 2 && rest[0] == "crates"@ {
            Some(rest[1])
        } else {
            None
        }
    }
}

/// The sub-package of `url` under the separators `seps`, if any.
pub open spec fn url_subcrate(url: UrlView, seps: Seq<Seq<char>>) -> Option<Seq<char>> {
    match url.segments {
        Some(segs) => subcrate_in(segs, seps),
        None => None,
    }
}

/// The views of a list of string slices.
pub open spec fn str_views(seps: Seq<&str>) -> Seq<Seq<char>> {
    seps.map_values(|s: &str| s@)
}

/// Sub-package detection under the separators `seps` takes `old` to `new`
/// with result `r`: on a match the name, and the URL cut to `owner/repo`;
/// otherwise nothing, and the URL unchanged.
pub open spec fn detected(old: UrlView, new: UrlView, seps: Seq<Seq<char>>, r: Option<Seq<char>>) -> bool {
    r == url_subcrate(old, seps) && match r {
        Some(_) => new == old.root(),
        None => new == old,
    }
}

/// Detection with the separators of `host`; none where the host has none.
pub open spec fn detected_for_host(old: UrlView, new: UrlView, host: RepositoryHost, r: Option<Seq<char>>) -> bool {
    match host_separators(host) {
        Some(seps) => detected(old, new, seps, r),
        None => r is None && new == old,
    }
}

/// A provider's browse URL `owner/repo/<separators>/branch/name`, or
/// `owner/repo/<separators>/branch/crates/name`, yields the sub-package `name`
/// and becomes the repository root: the same scheme and host, the path
/// `/owner/repo`, and nothing after it that was not there before.
pub proof fn lemma_browse_url_detected(
    old: UrlView,
    new: UrlView,
    host: RepositoryHost,
    r: Option<Seq<char>>,
    owner: Seq<char>,
    repo: Seq<char>,
    branch: Seq<char>,
    name: Seq<char>,
    with_crates: bool,
)
    requires
        host_separators(host) is Some,
        old.segments == Some(
            seq![owner, repo] + host_separators(host).unwrap() + seq![branch] + (if with_crates {
                seq!["crates"@]
            } else {
                Seq::empty()
            }) + seq![name],
        ),
        with_crates || name != "crates"@,
        detected_for_host(old, new, host, r),
    ensures
        r == Some(name),
        new.segments == Some(seq![owner, repo]),
        new.serialized() == old.head + joined_path(seq![owner, repo]) + old.tail,
{
    let seps = host_separators(host).unwrap();
    let k = seps.len() as int;
    let segs = old.segments.unwrap();
    assert(segs.subrange(2, 2 + k) =~= seps);
    let rest = segs.subrange(k + 3, segs.len() as int);
    if with_crates {
        assert(rest =~= seq!["crates"@, name]);
    } else {
        assert(rest =~= seq![name]);
    }
    assert(segs.subrange(0, 2) =~= seq![owner, repo]);
}

/// A URL without a provider's browse shape, or on a host that has none,
/// yields no sub-package and is left exactly as it was.
pub proof fn lemma_no_browse_shape_unchanged(old: UrlView, new: UrlView, host: RepositoryHost, r: Option<Seq<char>>)
    requires
        host_separators(host) is None || url_subcrate(old, host_separators(host).unwrap()) is None,
        detected_for_host(old, new, host, r),
    ensures
        r is None,
        new == old,
{
}

impl RepoInfo {
    /// If `repo` is a browse URL of a sub-package, returns the sub-package's
    /// name and cuts `repo` down to `scheme://host/owner/repo`.
    pub fn detect_subcrate(repo: &mut RepoUrl, repository_host: RepositoryHost) -> (r: Option<String>)
        ensures
            detected_for_host(old(repo)@, final(repo)@, repository_host, opt_view(r)),
    {
        match repository_host {
            RepositoryHost::GitHub => {
                let seps: [&str; 1] = ["tree"];
                assert(str_views(seps@) =~= seq!["tree"@]);
                Self::detect_subcrate_common(repo, &seps)
            },
            RepositoryHost::GitLab => {
                let seps: [&str; 2] = ["-", "blob"];
                assert(str_views(seps@) =~= seq!["-"@, "blob"@]);
                Self::detect_subcrate_common(repo, &seps)
            },
            RepositoryHost::Codeberg => {
                let seps: [&str; 2] = ["src", "branch"];
                assert(str_views(seps@) =~= seq!["src"@, "branch"@]);
                Self::detect_subcrate_common(repo, &seps)
            },
            _ => None,
        }
    }

    /// Sub-package detection with the given provider separators: the path must
    /// be `owner/repo/<seps>/branch/name` or `owner/repo/<seps>/branch/crates/name`
    /// and nothing more. On a match the name is returned and `repo` keeps only
    /// `owner/repo`; otherwise `repo` is left as it was.
    pub fn detect_subcrate_common(repo: &mut RepoUrl, seps: &[&str]) -> (r: Option<String>)
        ensures
            detected(old(repo)@, final(repo)@, str_views(seps@), opt_view(r)),
    {
        let ghost sv = str_views(seps@);
        let found: Option<String> = match repo.segments() {
            None => None,
            Some(segs) => {
                let ghost sq = segs@.map_values(|x: String| x@);
                let k = seps.len();
                let n = segs.len();
                if n < 4 || n - 4 < k {
                    None
                } else {
                    let mut i: usize = 0;
                    let mut ok = true;
                    while i < k
                        invariant
                            k == seps@.len(),
                            n == segs@.len(),
                            k + 4 <= n,
                            i <= k,
                            sq == segs@.map_values(|x: String| x@),
                            sv == str_views(seps@),
                            ok ==> forall|j: int| 0 <= j < i ==> sq[2 + j] == sv[j],
                            !ok ==> sq.subrange(2, 2 + k) != sv,
                        decreases k - i,
                    {
                        if ok {
                            let sep = seps[i].to_owned();
                            if segs[i + 2] != sep {
                                assert(sq.subrange(2, 2 + k as int)[i as int] != sv[i as int]);
                                ok = false;
                            }
                        }
                        i = i + 1;
                    }
                    if !ok {
                        None
                    } else {
                        assert(sq.subrange(2, 2 + k as int) =~= sv);
                        let ghost rest = sq.subrange(k + 3, n as int);
                        let crates = "crates".to_owned();
                        if n - k == 4 {
                            assert(rest[0] == sq[k + 3]);
                            if segs[k + 3] == crates {
                                None
                            } else {
                                Some(segs[k + 3].clone())
                            }
                        } else if n - k == 5 {
                            assert(rest[0] == sq[k + 3]);
                            assert(rest[1] == sq[k + 4]);
                            if segs[k + 3] == crates {
                                Some(segs[k + 4].clone())
                            } else {
                                None
                            }
                        } else {
                            None
                        }
                    }
                }
            },
        };
        if found.is_some() {
            repo.truncate_to_root();
        }
        found
    }
}

} // verus!
