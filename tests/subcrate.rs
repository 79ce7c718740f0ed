use binstalk_fetchers::{RepoInfo, RepoUrl, RepositoryHost};

fn url(s: &str) -> RepoUrl {
    RepoUrl::parse(s).unwrap()
}

#[test]
fn test_detect_subcrate_github() {
    // cargo-audit
    let urls = [
        "https://github.com/RustSec/rustsec/tree/main/cargo-audit",
        "https://github.com/RustSec/rustsec/tree/master/cargo-audit",
    ];
    for u in urls {
        let mut repo = url(u);

        let repository_host = RepositoryHost::guess_git_hosting_services(&repo);
        assert_eq!(repository_host, RepositoryHost::GitHub);

        let subcrate_prefix = RepoInfo::detect_subcrate(&mut repo, repository_host).unwrap();
        assert_eq!(subcrate_prefix, "cargo-audit");

        assert_eq!(
            repo.as_string(),
            url("https://github.com/RustSec/rustsec").as_string()
        );
    }

    // wasm-bindgen-cli
    let urls = [
        "https://github.com/rustwasm/wasm-bindgen/tree/main/crates/cli",
        "https://github.com/rustwasm/wasm-bindgen/tree/master/crates/cli",
    ];
    for u in urls {
        let mut repo = url(u);

        let repository_host = RepositoryHost::guess_git_hosting_services(&repo);
        assert_eq!(repository_host, RepositoryHost::GitHub);

        let subcrate_prefix = RepoInfo::detect_subcrate(&mut repo, repository_host).unwrap();
        assert_eq!(subcrate_prefix, "cli");

        assert_eq!(
            repo.as_string(),
            url("https://github.com/rustwasm/wasm-bindgen").as_string()
        );
    }
}

#[test]
fn test_detect_subcrate_gitlab() {
    let urls = [
        "https://gitlab.kitware.com/NobodyXu/hello/-/blob/main/cargo-binstall",
        "https://gitlab.kitware.com/NobodyXu/hello/-/blob/master/cargo-binstall",
    ];
    for u in urls {
        let mut repo = url(u);

        let repository_host = RepositoryHost::guess_git_hosting_services(&repo);
        assert_eq!(repository_host, RepositoryHost::GitLab);

        let subcrate_prefix = RepoInfo::detect_subcrate(&mut repo, repository_host).unwrap();
        assert_eq!(subcrate_prefix, "cargo-binstall");

        assert_eq!(
            repo.as_string(),
            url("https://gitlab.kitware.com/NobodyXu/hello").as_string()
        );
    }
}

#[test]
fn gitlab_example_host_subcrate() {
    let mut repo = url("https://gitlab.example.com/Owner/hello/-/blob/main/sub");
    let host = RepositoryHost::guess_git_hosting_services(&repo);
    assert_eq!(host, RepositoryHost::GitLab);
    assert_eq!(RepoInfo::detect_subcrate(&mut repo, host).as_deref(), Some("sub"));
    assert_eq!(repo.as_string(), "https://gitlab.example.com/Owner/hello");
}

#[test]
fn codeberg_subcrate_with_crates_marker() {
    let mut repo = url("https://codeberg.org/owner/proj/src/branch/main/crates/tool");
    let host = RepositoryHost::guess_git_hosting_services(&repo);
    assert_eq!(host, RepositoryHost::Codeberg);
    assert_eq!(RepoInfo::detect_subcrate(&mut repo, host).as_deref(), Some("tool"));
    assert_eq!(repo.as_string(), "https://codeberg.org/owner/proj");
}

#[test]
fn unmatched_urls_are_left_unchanged() {
    let cases = [
        "https://github.com/RustSec/rustsec",
        "https://github.com/RustSec/rustsec/blob/main/cargo-audit",
        "https://github.com/RustSec/rustsec/tree/main/cargo-audit/extra",
        "https://github.com/RustSec/rustsec/tree/main/crates",
        "https://github.com/RustSec/rustsec/tree/main",
        "https://gitlab.com/a/b/blob/main/x",
        "https://example.org/a/b/tree/main/x",
        "https://bitbucket.org/a/b/tree/main/x",
    ];
    for c in cases {
        let mut repo = url(c);
        let before = repo.as_string();
        let host = RepositoryHost::guess_git_hosting_services(&repo);
        assert_eq!(RepoInfo::detect_subcrate(&mut repo, host), None);
        assert_eq!(repo.as_string(), before);
    }
}

#[test]
fn detect_common_with_custom_separators() {
    let mut repo = url("https://host.example/o/r/x/y/dev/pkg?q=1#f");
    assert_eq!(
        RepoInfo::detect_subcrate_common(&mut repo, &["x", "y"]).as_deref(),
        Some("pkg")
    );
    assert_eq!(repo.as_string(), "https://host.example/o/r?q=1#f");
}

#[test]
fn hosts_are_classified_by_domain() {
    let cases = [
        ("https://github.com/a/b", RepositoryHost::GitHub),
        ("https://gitlab.com/a/b", RepositoryHost::GitLab),
        ("https://bitbucket.org/a/b", RepositoryHost::BitBucket),
        ("https://sourceforge.net/a/b", RepositoryHost::SourceForge),
        ("https://codeberg.org/a/b", RepositoryHost::Codeberg),
        ("https://example.com/a/b", RepositoryHost::Unknown),
        ("https://127.0.0.1/a/b", RepositoryHost::Unknown),
    ];
    for (u, h) in cases {
        assert_eq!(RepositoryHost::guess_git_hosting_services(&url(u)), h);
    }
}

#[test]
fn parse_keeps_url_parts() {
    let u = url("https://example.com/a/b?x=1#top");
    assert_eq!(u.as_string(), "https://example.com/a/b?x=1#top");
    assert_eq!(u.domain(), Some("example.com"));
    let segs: Vec<&str> = u.segments().unwrap().iter().map(|s| s.as_str()).collect();
    assert_eq!(segs, vec!["a", "b"]);
    assert!(RepoUrl::parse("not a url").is_err());
    assert!(url("mailto:someone@example.com").segments().is_none());
}
