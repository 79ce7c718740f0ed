use binstalk_fetchers::{
    Action, Data, Event, FetchError, GhApiError, GhRepo, InvalidPkgFmtError, RepoInfo, RepoUrl,
    RepositoryHost, Resolver, SignaturePolicy,
};

/// Drives a resolution with fixed answers: every redirect goes to the URL
/// asked about, identifiers come from `id`, and replies from `replies` in order.
/// Returns the outcome and the actions performed.
fn drive(
    mut r: Resolver,
    id: Option<(&str, &str)>,
    mut replies: Vec<Result<Option<bool>, GhApiError>>,
) -> (Result<Option<RepoInfo>, FetchError>, Vec<String>) {
    let mut log = Vec::new();
    for _ in 0..100 {
        let ev = match r.next_action() {
            Action::ResolveRedirect(u) => {
                log.push(format!("redirect {}", u.as_string()));
                Event::Redirected(Some(u.duplicate()))
            }
            Action::ExtractIdentifier(u) => {
                log.push(format!("identifier {}", u.as_string()));
                Event::Identifier(id.map(|(o, n)| GhRepo { owner: o.into(), repo: n.into() }))
            }
            Action::QueryRepoInfo(gh) => {
                log.push(format!("query {}/{}", gh.owner, gh.repo));
                Event::RepoInfoReply(replies.remove(0))
            }
            Action::Sleep(ms) => {
                log.push(format!("sleep {ms}"));
                Event::Slept
            }
            Action::Done => break,
        };
        r = r.step(ev);
    }
    (r.into_outcome().unwrap(), log)
}

#[test]
fn test_ignore_dot_git_for_github_repos() {
    let url_without_git = "https://github.com/cargo-bins/cargo-binstall";
    let url_with_git = format!("{}.git", url_without_git);

    let data = Data::new("cargo-binstall".into(), "v1.2.3".into(), Some(url_with_git));

    let (outcome, _) = drive(data.start_repo_info(false), None, vec![]);
    let repo_info = outcome.unwrap().unwrap();

    assert_eq!(url_without_git, repo_info.repo.as_string());
}

#[test]
fn dot_git_and_plain_url_agree() {
    let plain = Data::new("p".into(), "1".into(), Some("https://example.com/o/r".into()));
    let dotted = Data::new("p".into(), "1".into(), Some("https://example.com/o/r.git".into()));
    let (a, _) = drive(plain.start_repo_info(false), None, vec![]);
    let (b, _) = drive(dotted.start_repo_info(false), None, vec![]);
    let (a, b) = (a.unwrap().unwrap(), b.unwrap().unwrap());
    assert_eq!(a.repo.as_string(), b.repo.as_string());
    assert!(!a.is_private && !b.is_private);
}

#[test]
fn absent_repository_needs_no_work() {
    let data = Data::new("p".into(), "1".into(), None);
    let r = data.start_repo_info(true);
    assert!(r.is_finished());
    assert!(matches!(r.next_action(), Action::Done));
    assert!(matches!(r.into_outcome(), Some(Ok(None))));
}

#[test]
fn unparsable_repository_fails() {
    let data = Data::new("p".into(), "1".into(), Some("no scheme here".into()));
    let r = data.start_repo_info(false);
    assert!(matches!(r.into_outcome(), Some(Err(FetchError::UrlParse(_)))));
}

#[test]
fn rate_limit_sleeps_then_succeeds() {
    let data = Data::new("p".into(), "1".into(), Some("https://github.com/o/r".into()));
    let replies = vec![
        Err(GhApiError::RateLimit { retry_after_ms: Some(250) }),
        Err(GhApiError::RateLimit { retry_after_ms: Some(250) }),
        Ok(Some(true)),
    ];
    let (outcome, log) = drive(data.start_repo_info(true), Some(("o", "r")), replies);
    let info = outcome.unwrap().unwrap();
    assert!(info.is_private);
    assert_eq!(info.repository_host, RepositoryHost::GitHub);
    let sleeps: Vec<&String> = log.iter().filter(|l| l.starts_with("sleep")).collect();
    assert_eq!(sleeps, vec!["sleep 250", "sleep 250"]);
    assert_eq!(log.iter().filter(|l| l.starts_with("query")).count(), 3);
}

#[test]
fn rate_limit_without_delay_uses_default() {
    let data = Data::new("p".into(), "1".into(), Some("https://github.com/o/r".into()));
    let replies = vec![Err(GhApiError::RateLimit { retry_after_ms: None }), Ok(Some(false))];
    let (outcome, log) = drive(data.start_repo_info(true), Some(("o", "r")), replies);
    assert!(!outcome.unwrap().unwrap().is_private);
    assert!(log.contains(&"sleep 1000".to_string()));
}

#[test]
fn not_found_on_first_pass_is_an_error() {
    let data = Data::new("p".into(), "1".into(), Some("https://github.com/o/r".into()));
    let (outcome, _) = drive(data.start_repo_info(true), Some(("o", "r")), vec![Ok(None)]);
    assert!(matches!(outcome, Err(FetchError::GhApi(GhApiError::NotFound))));
}

#[test]
fn other_api_error_on_first_pass_propagates() {
    let data = Data::new("p".into(), "1".into(), Some("https://github.com/o/r".into()));
    let (outcome, _) =
        drive(data.start_repo_info(true), Some(("o", "r")), vec![Err(GhApiError::Unauthorized)]);
    assert!(matches!(outcome, Err(FetchError::GhApi(GhApiError::Unauthorized))));
}

#[test]
fn second_pass_failure_falls_back_to_dot_git_url() {
    let data = Data::new("p".into(), "1".into(), Some("https://github.com/o/r.git".into()));
    let replies = vec![Err(GhApiError::Other("boom".into())), Ok(Some(true))];
    let (outcome, log) = drive(data.start_repo_info(true), Some(("o", "r")), replies);
    let info = outcome.unwrap().unwrap();
    assert_eq!(info.repo.as_string(), "https://github.com/o/r.git");
    assert!(info.is_private);
    assert_eq!(log.iter().filter(|l| l.starts_with("query")).count(), 2);
}

#[test]
fn second_pass_success_uses_stripped_url() {
    let data = Data::new("p".into(), "1".into(), Some("https://github.com/o/r.git".into()));
    let (outcome, _) = drive(data.start_repo_info(true), Some(("o", "r")), vec![Ok(Some(true))]);
    let info = outcome.unwrap().unwrap();
    assert_eq!(info.repo.as_string(), "https://github.com/o/r");
    assert!(info.is_private);
}

#[test]
fn failed_redirect_keeps_configured_url_and_detects_subcrate() {
    let data = Data::new(
        "p".into(),
        "1".into(),
        Some("https://github.com/rustwasm/wasm-bindgen/tree/main/crates/cli".into()),
    );
    let mut r = data.start_repo_info(false);
    assert!(matches!(r.next_action(), Action::ResolveRedirect(_)));
    r = r.step(Event::Redirected(None));
    assert!(matches!(r.next_action(), Action::ExtractIdentifier(_)));
    r = r.step(Event::Identifier(None));
    let info = r.into_outcome().unwrap().unwrap().unwrap();
    assert_eq!(info.subcrate.as_deref(), Some("cli"));
    assert_eq!(info.repo.as_string(), "https://github.com/rustwasm/wasm-bindgen");
}

#[test]
fn finished_resolution_ignores_events() {
    let data = Data::new("p".into(), "1".into(), None);
    let r = data.start_repo_info(false).step(Event::Slept).step(Event::Redirected(None));
    assert!(matches!(r.into_outcome(), Some(Ok(None))));
}

#[test]
fn unexpected_event_changes_nothing() {
    let data = Data::new("p".into(), "1".into(), Some("https://example.com/o/r".into()));
    let r = data.start_repo_info(false).step(Event::Slept);
    assert!(matches!(r.next_action(), Action::ResolveRedirect(_)));
}

#[test]
fn signature_policy_flags() {
    assert!(!SignaturePolicy::Ignore.verifies());
    assert!(SignaturePolicy::IfPresent.verifies());
    assert!(!SignaturePolicy::IfPresent.requires_signature());
    assert!(SignaturePolicy::Require.requires_signature());
}

#[test]
fn invalid_pkg_fmt_converts_to_fetch_error() {
    let e = InvalidPkgFmtError {
        crate_name: "c".into(),
        version: "1".into(),
        target: "x86_64-unknown-linux-gnu".into(),
        pkg_url: "u".into(),
        reason: "bad",
    };
    match FetchError::from(e) {
        FetchError::InvalidPkgFmt(b) => assert_eq!(b.reason, "bad"),
        other => panic!("unexpected {other:?}"),
    }
}
