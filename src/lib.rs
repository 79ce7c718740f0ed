//! Resolution core of a binary-package installer: repository URL
//! normalisation, sub-package detection, the repository-metadata resolution
//! state machine, and the signature policy.

pub mod data;
pub mod error;
pub mod hosting;
pub mod repo_url;
pub mod resolve;
pub mod signature;
pub mod subcrate;
pub mod text;

pub use data::{Data, TargetData};
pub use error::{FetchError, GhApiError, InvalidPkgFmtError};
pub use hosting::RepositoryHost;
pub use repo_url::RepoUrl;
pub use resolve::{Action, Event, GhRepo, Resolver, Stage};
pub use signature::SignaturePolicy;
pub use subcrate::RepoInfo;
pub use url::ParseError as UrlParseError;
