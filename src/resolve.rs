//! Resolution of a package's repository metadata, as a state machine.
//!
//! The machine decides; its driver does the outside work that each
//! [`Action`] names (resolve a redirect, extract an API identifier, query the
//! repository's visibility, sleep) and hands the answer back as an [`Event`].
use vstd::prelude::*;
use crate::error::{FetchError, GhApiError};
use crate::hosting::{host_of_domain, RepositoryHost};
use crate::repo_url::{opt_view, url_parts, RepoUrl, UrlView};
use crate::subcrate::{detected_for_host, host_separators, url_subcrate, RepoInfo};
use crate::text::{ends_with, is_suffix};

verus! {

/// Milliseconds to wait after a rate-limit answer that names no delay.
pub const DEFAULT_RETRY_MILLIS: u64 = 1000;

/// A repository as the visibility API names it.
#[derive(Debug)]
pub struct GhRepo {
    pub owner: String,
    pub repo: String,
}

/// What the first pass made of the repository URL: the URL after redirects
/// with any sub-package path cut off, its host, and the sub-package.
#[derive(Debug)]
pub struct Found {
    pub repo: RepoUrl,
    pub host: RepositoryHost,
    pub subcrate: Option<String>,
}

/// Where a resolution stands.
#[derive(Debug)]
#[allow(inconsistent_fields)]
pub enum Stage {
    /// Waiting for the redirect target of the configured URL.
    Redirecting { url: RepoUrl },
    /// The URL ended in `.git`; waiting for the API identifier of `stripped`,
    /// the URL without that suffix.
    StrippedIdentifier { found: Found, stripped: RepoUrl },
    /// Waiting for the redirect target of `stripped`.
    StrippedRedirect { found: Found, stripped: RepoUrl },
    /// Waiting for the API identifier of the found URL.
    Identifier { found: Found },
    /// Waiting for the visibility of `gh`; `stripped` is set on the second pass.
    Query { found: Found, stripped: Option<RepoUrl>, gh: GhRepo },
    /// Rate limited: waiting out `millis` before asking again.
    Sleeping { found: Found, stripped: Option<RepoUrl>, gh: GhRepo, millis: u64 },
    /// Done.
    Finished { outcome: Result<Option<RepoInfo>, FetchError> },
}

/// A resolution in progress.
#[derive(Debug)]
pub struct Resolver {
    /// Whether an API token is available.
    pub has_token: bool,
    pub stage: Stage,
}

/// The outside work that a resolution waits for.
#[derive(Debug)]
pub enum Action<'a> {
    ResolveRedirect(&'a RepoUrl),
    ExtractIdentifier(&'a RepoUrl),
    QueryRepoInfo(&'a GhRepo),
    Sleep(u64),
    Done,
}

/// The answer to an [`Action`].
#[derive(Debug)]
pub enum Event {
    /// The redirect target; `None` when resolving failed.
    Redirected(Option<RepoUrl>),
    /// The API identifier of the URL, if it has one.
    Identifier(Option<GhRepo>),
    /// `Ok(Some(is_private))`, `Ok(None)` for an unknown repository, or the API's error.
    RepoInfoReply(Result<Option<bool>, GhApiError>),
    Slept,
}

/// `found` is what the first pass makes of the URL `url`: the host of `url`,
/// and `url` after sub-package detection for that host.
pub open spec fn found_from(url: UrlView, found: Found) -> bool {
    &&& found.host == host_of_domain(url.domain)
    &&& detected_for_host(url, found.repo@, found.host, opt_view(found.subcrate))
}

/// The parts of the found URL without its `.git` suffix, when it has that
/// suffix and the rest parses.
pub open spec fn stripped_parts(found: Found) -> Option<(Seq<char>, Option<Seq<char>>, Seq<char>, Seq<char>)> {
    let s = found.repo@.serialized();
    if is_suffix(".git"@, s) {
        url_parts(s.subrange(0, s.len() - 4))
    } else {
        None
    }
}

/// The stage that the first redirect answer leads to from the URL `url`.
pub open spec fn after_first_pass(url: UrlView, stage: Stage) -> bool {
    match stage {
        Stage::StrippedIdentifier { found, stripped } => found_from(url, found) && stripped_parts(found)
            == Some(stripped@.parts()) && stripped@.wf(),
        Stage::Identifier { found } => found_from(url, found) && stripped_parts(found) is None,
        _ => false,
    }
}

/// The metadata of a finished resolution at `repo`, with the sub-package of `found`.
pub open spec fn info_at(repo: RepoUrl, found: Found, is_private: bool) -> RepoInfo {
    RepoInfo {
        repo,
        repository_host: host_of_domain(repo@.domain),
        subcrate: found.subcrate,
        is_private,
    }
}

/// The metadata of a resolution that ends at the found URL.
pub open spec fn info_found(found: Found, is_private: bool) -> RepoInfo {
    RepoInfo { repo: found.repo, repository_host: found.host, subcrate: found.subcrate, is_private }
}

/// The stage that a visibility answer leads to.
pub open spec fn after_reply(
    found: Found,
    stripped: Option<RepoUrl>,
    gh: GhRepo,
    reply: Result<Option<bool>, GhApiError>,
) -> Stage {
    match reply {
        Ok(Some(p)) => Stage::Finished {
            outcome: Ok(Some(
                match stripped {
                    Some(s) => info_at(s, found, p),
                    None => info_found(found, p),
                },
            )),
        },
        Err(GhApiError::RateLimit { retry_after_ms }) => Stage::Sleeping {
            found,
            stripped,
            gh,
            millis: match retry_after_ms {
                Some(d) => d,
                None => DEFAULT_RETRY_MILLIS,
            },
        },
        Ok(None) => match stripped {
            Some(_) => Stage::Identifier { found },
            None => Stage::Finished { outcome: Err(FetchError::GhApi(GhApiError::NotFound)) },
        },
        Err(e) => match stripped {
            Some(_) => Stage::Identifier { found },
            None => Stage::Finished { outcome: Err(FetchError::GhApi(e)) },
        },
    }
}

/// One step: the event `ev` takes `pre` to `post`. An event that the stage
/// does not wait for changes nothing.
pub open spec fn transition(pre: Resolver, ev: Event, post: Resolver) -> bool {
    &&& post.has_token == pre.has_token
    &&& match (pre.stage, ev) {
        (Stage::Redirecting { url }, Event::Redirected(r)) => after_first_pass(
            match r {
                Some(x) => x@,
                None => url@,
            },
            post.stage,
        ),
        (Stage::StrippedIdentifier { found, stripped }, Event::Identifier(id)) => post.stage == match id {
            Some(gh) if pre.has_token => Stage::Query { found, stripped: Some(stripped), gh },
            _ => Stage::StrippedRedirect { found, stripped },
        },
        (Stage::StrippedRedirect { found, stripped }, Event::Redirected(r)) => post.stage == match r {
            Some(x) => Stage::Finished { outcome: Ok(Some(info_at(x, found, false))) },
            None => Stage::Identifier { found },
        },
        (Stage::Identifier { found }, Event::Identifier(id)) => post.stage == match id {
            Some(gh) if pre.has_token => Stage::Query { found, stripped: None, gh },
            _ => Stage::Finished { outcome: Ok(Some(info_found(found, false))) },
        },
        (Stage::Query { found, stripped, gh }, Event::RepoInfoReply(reply)) => post.stage
            == after_reply(found, stripped, gh, reply),
        (Stage::Sleeping { found, stripped, gh, millis: _ }, Event::Slept) => post.stage
            == Stage::Query { found, stripped, gh },
        _ => post.stage == pre.stage,
    }
}

/// The work that a resolution in `r` waits for.
pub open spec fn action_of<'a>(r: &'a Resolver) -> Action<'a> {
    match &r.stage {
        Stage::Redirecting { url } => Action::ResolveRedirect(url),
        Stage::StrippedIdentifier { stripped, .. } => Action::ExtractIdentifier(stripped),
        Stage::StrippedRedirect { stripped, .. } => Action::ResolveRedirect(stripped),
        Stage::Identifier { found } => Action::ExtractIdentifier(&found.repo),
        Stage::Query { gh, .. } => Action::QueryRepoInfo(gh),
        Stage::Sleeping { millis, .. } => Action::Sleep(*millis),
        Stage::Finished { .. } => Action::Done,
    }
}

/// How a resolution of the configured URL `repo` starts: with no URL it is
/// finished with no metadata; with one that does not parse it has failed;
/// otherwise it waits for the URL's redirect target.
pub open spec fn started(repo: Option<Seq<char>>, has_token: bool, r: Resolver) -> bool {
    &&& r.has_token == has_token
    &&& match repo {
        None => r.stage == Stage::Finished { outcome: Ok(None) },
        Some(s) => match r.stage {
            Stage::Redirecting { url } => url_parts(s) is Some && url@.parts() == url_parts(s).unwrap()
                && url@.wf(),
            Stage::Finished { outcome: Err(FetchError::UrlParse(_)) } => url_parts(s) is None,
            _ => false,
        },
    }
}

/// With no repository URL configured, a resolution is finished from the start
/// with no metadata, and asks for no outside work.
pub proof fn lemma_absent_repository(has_token: bool, r: Resolver)
    requires
        started(None, has_token, r),
    ensures
        r.stage == (Stage::Finished { outcome: Ok(None) }),
        action_of(&r) == Action::Done,
{
}

/// A finished resolution keeps its outcome whatever it is told, and asks for
/// no further outside work: its result is fixed once.
pub proof fn lemma_finished_is_final(pre: Resolver, ev: Event, post: Resolver)
    requires
        pre.stage is Finished,
        transition(pre, ev, post),
    ensures
        post.stage == pre.stage,
        action_of(&post) == Action::Done,
{
}

/// A visibility query answered twice with a rate limit of `d` milliseconds
/// and then with success sleeps exactly twice, `d` each time, asks again after
/// each sleep, and ends with the visibility that the success gave.
pub proof fn lemma_rate_limit_retry(
    s0: Resolver,
    s1: Resolver,
    s2: Resolver,
    s3: Resolver,
    s4: Resolver,
    s5: Resolver,
    found: Found,
    stripped: Option<RepoUrl>,
    gh: GhRepo,
    d: u64,
    is_private: bool,
)
    requires
        s0.stage == (Stage::Query { found, stripped, gh }),
        transition(s0, Event::RepoInfoReply(Err(GhApiError::RateLimit { retry_after_ms: Some(d) })), s1),
        transition(s1, Event::Slept, s2),
        transition(s2, Event::RepoInfoReply(Err(GhApiError::RateLimit { retry_after_ms: Some(d) })), s3),
        transition(s3, Event::Slept, s4),
        transition(s4, Event::RepoInfoReply(Ok(Some(is_private))), s5),
    ensures
        action_of(&s0) == Action::QueryRepoInfo(&gh),
        action_of(&s1) == Action::Sleep(d),
        action_of(&s2) == Action::QueryRepoInfo(&gh),
        action_of(&s3) == Action::Sleep(d),
        action_of(&s4) == Action::QueryRepoInfo(&gh),
        s5.stage matches Stage::Finished { outcome: Ok(Some(info)) } && info.is_private == is_private
            && info.subcrate == found.subcrate,
{
}

/// Whether the first pass finds no sub-package in `url`.
pub open spec fn no_subcrate(url: UrlView) -> bool {
    match host_separators(host_of_domain(url.domain)) {
        Some(seps) => url_subcrate(url, seps) is None,
        None => true,
    }
}

/// A repository URL `u + ".git"` resolves to the same repository URL as `u`,
/// when no token is available, neither URL names a sub-package, each parses
/// to itself, and each redirect target is the URL asked about.
pub proof fn lemma_dot_git_same_repo(
    u: Seq<char>,
    a0: Resolver,
    x1: RepoUrl,
    a1: Resolver,
    id1: Option<GhRepo>,
    a2: Resolver,
    x2: RepoUrl,
    a3: Resolver,
    b0: Resolver,
    y1: RepoUrl,
    b1: Resolver,
    id2: Option<GhRepo>,
    b2: Resolver,
)
    requires
        !is_suffix(".git"@, u),
        url_parts(u) matches Some(p) && p.0 + p.2 + p.3 == u,
        url_parts(u + ".git"@) matches Some(p) && p.0 + p.2 + p.3 == u + ".git"@,
        started(Some(u + ".git"@), false, a0),
        a0.stage matches Stage::Redirecting { url } && x1@ == url@ && no_subcrate(url@),
        transition(a0, Event::Redirected(Some(x1)), a1),
        a1.stage matches Stage::StrippedIdentifier { stripped, .. } ==> x2@ == stripped@,
        transition(a1, Event::Identifier(id1), a2),
        transition(a2, Event::Redirected(Some(x2)), a3),
        started(Some(u), false, b0),
        b0.stage matches Stage::Redirecting { url } && y1@ == url@ && no_subcrate(url@),
        transition(b0, Event::Redirected(Some(y1)), b1),
        transition(b1, Event::Identifier(id2), b2),
    ensures
        a3.stage matches Stage::Finished { outcome: Ok(Some(ia)) } && b2.stage matches Stage::Finished {
            outcome: Ok(Some(ib)),
        } && ia.repo@.serialized() == ib.repo@.serialized() && ia.repo@.parts() == ib.repo@.parts(),
{
    reveal_strlit(".git");
    let ug = u + ".git"@;
    assert(ug.subrange(0, ug.len() - 4) =~= u);
    assert(ug.subrange(ug.len() - 4, ug.len() as int) =~= ".git"@);
}

/// The first pass on `url`: host, sub-package detection, and the `.git` check.
fn first_pass(url: RepoUrl) -> (stage: Stage)
    ensures
        after_first_pass(url@, stage),
{
    let mut u = url;
    let host = RepositoryHost::guess_git_hosting_services(&u);
    let subcrate = RepoInfo::detect_subcrate(&mut u, host);
    let s = u.as_string();
    let found = Found { repo: u, host, subcrate };
    if ends_with(s.as_str(), ".git") {
        proof {
            reveal_strlit(".git");
        }
        let n = s.as_str().unicode_len();
        let prefix = s.as_str().substring_char(0, n - 4);
        match RepoUrl::parse(prefix) {
            Ok(stripped) => Stage::StrippedIdentifier { found, stripped },
            Err(_) => Stage::Identifier { found },
        }
    } else {
        Stage::Identifier { found }
    }
}

impl Resolver {
    /// Starts resolving the configured repository URL `repo`.
    pub fn start(repo: Option<&str>, has_token: bool) -> (r: Resolver)
        ensures
            started(
                match repo {
                    Some(s) => Some(s@),
                    None => None,
                },
                has_token,
                r,
            ),
    {
        let stage = match repo {
            None => Stage::Finished { outcome: Ok(None) },
            Some(s) => match RepoUrl::parse(s) {
                Ok(url) => Stage::Redirecting { url },
                Err(e) => Stage::Finished { outcome: Err(FetchError::UrlParse(e)) },
            },
        };
        Resolver { has_token, stage }
    }

    /// The outside work that the resolution waits for.
    pub fn next_action(&self) -> (a: Action<'_>)
        ensures
            a == action_of(self),
    {
        match &self.stage {
            Stage::Redirecting { url } => Action::ResolveRedirect(url),
            Stage::StrippedIdentifier { stripped, .. } => Action::ExtractIdentifier(stripped),
            Stage::StrippedRedirect { stripped, .. } => Action::ResolveRedirect(stripped),
            Stage::Identifier { found } => Action::ExtractIdentifier(&found.repo),
            Stage::Query { gh, .. } => Action::QueryRepoInfo(gh),
            Stage::Sleeping { millis, .. } => Action::Sleep(*millis),
            Stage::Finished { .. } => Action::Done,
        }
    }

    /// Takes the answer `ev` to the pending action.
    pub fn step(self, ev: Event) -> (post: Resolver)
        ensures
            transition(self, ev, post),
    {
        let has_token = self.has_token;
        let stage = match (self.stage, ev) {
            (Stage::Redirecting { url }, Event::Redirected(r)) => {
                let target = match r {
                    Some(x) => x,
                    None => url,
                };
                first_pass(target)
            },
            (Stage::StrippedIdentifier { found, stripped }, Event::Identifier(id)) => match id {
                Some(gh) if has_token => Stage::Query { found, stripped: Some(stripped), gh },
                _ => Stage::StrippedRedirect { found, stripped },
            },
            (Stage::StrippedRedirect { found, stripped }, Event::Redirected(r)) => match r {
                Some(x) => {
                    let host = RepositoryHost::guess_git_hosting_services(&x);
                    let info = RepoInfo {
                        repo: x,
                        repository_host: host,
                        subcrate: found.subcrate,
                        is_private: false,
                    };
                    Stage::Finished { outcome: Ok(Some(info)) }
                },
                None => Stage::Identifier { found },
            },
            (Stage::Identifier { found }, Event::Identifier(id)) => match id {
                Some(gh) if has_token => Stage::Query { found, stripped: None, gh },
                _ => {
                    let info = RepoInfo {
                        repo: found.repo,
                        repository_host: found.host,
                        subcrate: found.subcrate,
                        is_private: false,
                    };
                    Stage::Finished { outcome: Ok(Some(info)) }
                },
            },
            (Stage::Query { found, stripped, gh }, Event::RepoInfoReply(reply)) => Self::on_reply(
                found,
                stripped,
                gh,
                reply,
            ),
            (Stage::Sleeping { found, stripped, gh, millis: _ }, Event::Slept) => Stage::Query {
                found,
                stripped,
                gh,
            },
            (stage, _) => stage,
        };
        Resolver { has_token, stage }
    }

    /// The stage after a visibility answer: success finishes, a rate limit
    /// waits, a failure on the second pass falls back to the first pass's URL
    /// and on the first pass fails the resolution.
    fn on_reply(
        found: Found,
        stripped: Option<RepoUrl>,
        gh: GhRepo,
        reply: Result<Option<bool>, GhApiError>,
    ) -> (stage: Stage)
        ensures
            stage == after_reply(found, stripped, gh, reply),
    {
        match reply {
            Ok(Some(p)) => {
                let info = match stripped {
                    Some(s) => {
                        let host = RepositoryHost::guess_git_hosting_services(&s);
                        RepoInfo { repo: s, repository_host: host, subcrate: found.subcrate, is_private: p }
                    },
                    None => RepoInfo {
                        repo: found.repo,
                        repository_host: found.host,
                        subcrate: found.subcrate,
                        is_private: p,
                    },
                };
                Stage::Finished { outcome: Ok(Some(info)) }
            },
            Err(GhApiError::RateLimit { retry_after_ms }) => {
                let millis = match retry_after_ms {
                    Some(d) => d,
                    None => DEFAULT_RETRY_MILLIS,
                };
                Stage::Sleeping { found, stripped, gh, millis }
            },
            Ok(None) => match stripped {
                Some(_) => Stage::Identifier { found },
                None => Stage::Finished { outcome: Err(FetchError::GhApi(GhApiError::NotFound)) },
            },
            Err(e) => match stripped {
                Some(_) => Stage::Identifier { found },
                None => Stage::Finished { outcome: Err(FetchError::GhApi(e)) },
            },
        }
    }

    /// Whether the resolution is over.
    pub fn is_finished(&self) -> (r: bool)
        ensures
            r == (self.stage is Finished),
    {
        matches!(self.stage, Stage::Finished { .. })
    }

    /// The outcome of a finished resolution; `None` while it is still going.
    pub fn into_outcome(self) -> (r: Option<Result<Option<RepoInfo>, FetchError>>)
        ensures
            match self.stage {
                Stage::Finished { outcome } => r == Some(outcome),
                _ => r is None,
            },
    {
        match self.stage {
            Stage::Finished { outcome } => Some(outcome),
            _ => None,
        }
    }
}

} // verus!
