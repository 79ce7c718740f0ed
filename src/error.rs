//! The closed set of failures that fetching raises.
use vstd::prelude::*;

verus! {

/// A package URL template gave an unusable URL for a target.
#[derive(Debug)]
pub struct InvalidPkgFmtError {
    pub crate_name: String,
    pub version: String,
    pub target: String,
    pub pkg_url: String,
    pub reason: &'static str,
}

/// A failure reported by the repository-visibility API.
#[derive(Debug)]
pub enum GhApiError {
    /// The repository does not exist, or is not visible.
    NotFound,
    /// The API asks to be called again later, after the given milliseconds
    /// when it says so.
    RateLimit { retry_after_ms: Option<u64> },
    /// The token was refused.
    Unauthorized,
    /// Any other failure, with its message.
    Other(String),
}

/// Every failure of a fetcher.
#[derive(Debug)]
pub enum FetchError {
    /// Download or transport failure, with its message.
    Download(String),
    /// A URL template did not parse, with the message.
    TemplateParse(String),
    /// A URL template did not render, with the message.
    TemplateRender(String),
    /// The repository API failed.
    GhApi(GhApiError),
    InvalidPkgFmt(Box<InvalidPkgFmtError>),
    /// A repository URL did not parse.
    UrlParse(url::ParseError),
    /// The named signing algorithm is not supported.
    UnsupportedSigningAlgorithm(String),
    MissingSignature,
    InvalidSignature,
    /// Awaited concurrent work failed, with its message.
    TaskJoinError(String),
}

impl From<InvalidPkgFmtError> for FetchError {
    fn from(e: InvalidPkgFmtError) -> (r: FetchError) {
        FetchError::InvalidPkgFmt(Box::new(e))
    }
}

impl vstd::std_specs::convert::FromSpecImpl<InvalidPkgFmtError> for FetchError {
    open spec fn obeys_from_spec() -> bool {
        true
    }

    open spec fn from_spec(e: InvalidPkgFmtError) -> FetchError {
        FetchError::InvalidPkgFmt(Box::new(e))
    }
}

} // verus!
